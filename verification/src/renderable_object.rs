//! One thing on screen: a shared model, its instances and their buffer, the
//! pipeline it is drawn with and the draw strategy.

use crate::draw_traits::{
    model_with_material, model_without_material, DrawMethod, DrawWithMaterial,
    DrawWithoutMaterial,
};
use crate::gpu::{BindGroupId, BufferId, BufferUsages, RenderCommand, RenderPass, Span};
use crate::instance::{pack, packed_bytes, InstanceRaw, RECORD_SIZE};
use crate::model::{Model, ModelView};
use std::sync::Arc;
use vstd::prelude::*;

verus! {

/// An instance buffer as contracts see it.
pub struct InstanceBufferView {
    /// Handle of the GPU buffer.
    pub id: BufferId,
    /// The records the buffer holds, one for each instance.
    pub records: Seq<InstanceRaw>,
}

impl InstanceBufferView {
    /// The bytes of the buffer: those of the records, one after the other.
    pub open spec fn contents(self) -> Seq<u8> {
        packed_bytes(self.records)
    }
}

/// The instance buffer of one object: the records of its instances and the
/// bytes that the GPU buffer holds for them. The bytes are always those of
/// the records.
pub struct InstanceBuffer {
    id: BufferId,
    records: Vec<InstanceRaw>,
    contents: Vec<u8>,
}

impl View for InstanceBuffer {
    type V = InstanceBufferView;

    closed spec fn view(&self) -> InstanceBufferView {
        InstanceBufferView { id: self.id, records: self.records@ }
    }
}

impl InstanceBuffer {
    #[verifier::type_invariant]
    spec fn valid(self) -> bool {
        self.contents@ == packed_bytes(self.records@)
    }

    /// The buffer `id`, holding `records`.
    pub fn new(id: BufferId, records: Vec<InstanceRaw>) -> (buffer: InstanceBuffer)
        ensures
            buffer@ == (InstanceBufferView { id, records: records@ }),
    {
        let contents = pack(records.as_slice());
        InstanceBuffer { id, records, contents }
    }

    /// Handle of the GPU buffer.
    pub fn id(&self) -> (id: BufferId)
        ensures
            id == self@.id,
    {
        self.id
    }

    /// The records of the instances.
    pub fn records(&self) -> (records: &Vec<InstanceRaw>)
        ensures
            records@ == self@.records,
    {
        &self.records
    }

    /// The end of the range `0..end` of all instances: their number, as far
    /// as the 32 bits of a draw call's range hold it.
    pub open spec fn spec_instance_count(&self) -> u32 {
        self@.records.len() as u32
    }

    /// The end of the range `0..end` of all instances: their number, cut to
    /// the 32 bits of a draw call's range.
    #[verifier::when_used_as_spec(spec_instance_count)]
    pub fn instance_count(&self) -> (count: u32)
        ensures
            count == self.spec_instance_count(),
            self@.records.len() <= u32::MAX ==> count == self@.records.len(),
    {
        #[verifier::truncate]
        (self.records.len() as u32)
    }

    /// The bytes of the GPU buffer: exactly one record for each instance.
    pub fn contents(&self) -> (contents: &Vec<u8>)
        ensures
            contents@ == self@.contents(),
            contents@.len() == RECORD_SIZE * self@.records.len(),
    {
        proof {
            use_type_invariant(self);
        }
        &self.contents
    }

    /// The buffer feeds the vertex stage and is written from the CPU.
    pub fn usage(&self) -> (usage: BufferUsages)
        ensures
            usage == (BufferUsages { vertex: true, index: false, uniform: false, copy_dst: true }),
    {
        BufferUsages { vertex: true, index: false, uniform: false, copy_dst: true }
    }
}

/// The characters of an optional name.
pub open spec fn name_view(name: Option<String>) -> Option<Seq<char>> {
    match name {
        Some(name) => Some(name@),
        None => None,
    }
}

/// A model drawn once for each of its instances.
pub struct RenderableObject {
    pub model: Arc<Model>,
    pub instance_buffer: InstanceBuffer,
    /// Name of the pipeline the object is drawn with; `None` stands for the
    /// main pipeline of the scene.
    pub pipeline_name: Option<String>,
    pub draw_method: DrawMethod,
}

impl RenderableObject {
    /// An object of `model` with one record in `instance_buffer` for each of
    /// `instances`.
    pub fn new(
        instance_buffer: BufferId,
        model: Arc<Model>,
        instances: Vec<InstanceRaw>,
        pipeline_name: Option<String>,
        draw_method: DrawMethod,
    ) -> (object: RenderableObject)
        ensures
            object.is_made_of(
                instance_buffer,
                model,
                instances@,
                name_view(pipeline_name),
                draw_method,
            ),
            object.pipeline_name == pipeline_name,
    {
        RenderableObject {
            model,
            instance_buffer: InstanceBuffer::new(instance_buffer, instances),
            pipeline_name,
            draw_method,
        }
    }

    /// The object is the one that `new` makes of these parts.
    pub open spec fn is_made_of(
        &self,
        instance_buffer: BufferId,
        model: Arc<Model>,
        instances: Seq<InstanceRaw>,
        pipeline_name: Option<Seq<char>>,
        draw_method: DrawMethod,
    ) -> bool {
        &&& self.model == model
        &&& self.instance_buffer@ == (InstanceBufferView {
            id: instance_buffer,
            records: instances,
        })
        &&& name_view(self.pipeline_name) == pipeline_name
        &&& self.draw_method == draw_method
    }

    /// The model the object shares.
    pub open spec fn shared_model(&self) -> ModelView {
        self.model@
    }

    /// All instances of the object: `0..instance_count`.
    pub open spec fn all_instances(&self) -> Span {
        Span { start: 0, end: self.instance_buffer.spec_instance_count() }
    }

    /// What drawing the object records: every mesh of the model, bound as
    /// the draw strategy says, for all instances.
    pub open spec fn draw_commands(&self, camera: BindGroupId, light: BindGroupId) -> Seq<
        RenderCommand,
    > {
        match self.draw_method {
            DrawMethod::WithMaterial => model_with_material(
                self.shared_model(),
                self.shared_model().meshes.len() as int,
                self.all_instances(),
                camera,
                light,
            ),
            DrawMethod::WithoutMaterial => model_without_material(
                self.shared_model(),
                self.shared_model().meshes.len() as int,
                self.all_instances(),
                camera,
                light,
            ),
        }
    }

    /// Draws all instances of the object with its draw strategy.
    pub fn draw(
        &self,
        render_pass: &mut RenderPass,
        camera_bind_group: BindGroupId,
        light_bind_group: BindGroupId,
    )
        ensures
            self.shared_model().materials_resolve(),
            final(render_pass)@ == old(render_pass)@ + self.draw_commands(
                camera_bind_group,
                light_bind_group,
            ),
    {
        let instances = 0..self.instance_buffer.instance_count();
        match self.draw_method {
            DrawMethod::WithMaterial => {
                DrawWithMaterial::draw_model_instanced(
                    render_pass,
                    &self.model,
                    instances,
                    camera_bind_group,
                    light_bind_group,
                );
            },
            DrawMethod::WithoutMaterial => {
                DrawWithoutMaterial::draw_model_instanced(
                    render_pass,
                    &self.model,
                    instances,
                    camera_bind_group,
                    light_bind_group,
                );
            },
        }
    }

    /// Replaces the instances by `instances` and rebuilds the contents of the
    /// instance buffer from them, all of it.
    pub fn update_instances(&mut self, instances: Vec<InstanceRaw>)
        ensures
            final(self).instance_buffer@ == (InstanceBufferView {
                id: old(self).instance_buffer@.id,
                records: instances@,
            }),
            final(self).model == old(self).model,
            final(self).pipeline_name == old(self).pipeline_name,
            final(self).draw_method == old(self).draw_method,
    {
        self.instance_buffer = InstanceBuffer::new(self.instance_buffer.id(), instances);
    }
}

} // verus!
