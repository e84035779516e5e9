//! The two draw strategies: the bindings and the draw call recorded for a mesh,
//! with and without the mesh's material.

use crate::gpu::{BindGroupId, IndexFormat, RenderCommand, RenderPass, Span};
use crate::model::{Material, Mesh, Model, ModelView};
use std::ops::Range;
use vstd::prelude::*;

verus! {

/// The binding sequence an object is drawn with.
#[derive(Clone, Copy, Debug, PartialEq, Eq, Structural)]
pub enum DrawMethod {
    WithMaterial,
    WithoutMaterial,
}

/// The span `0..1`: a single instance.
pub open spec fn single_instance() -> Span {
    Span { start: 0, end: 1 }
}

/// What drawing `mesh` with its material records: vertex buffer at slot 0,
/// 32-bit index buffer, material at group 0, camera at group 1, light at
/// group 2, then one indexed draw of all the mesh's indices.
pub open spec fn mesh_with_material(
    mesh: Mesh,
    material: Material,
    instances: Span,
    camera: BindGroupId,
    light: BindGroupId,
) -> Seq<RenderCommand> {
    seq![
        RenderCommand::SetVertexBuffer { slot: 0, buffer: mesh.vertex_buffer },
        RenderCommand::SetIndexBuffer { buffer: mesh.index_buffer, format: IndexFormat::Uint32 },
        RenderCommand::SetBindGroup { index: 0, group: material.bind_group },
        RenderCommand::SetBindGroup { index: 1, group: camera },
        RenderCommand::SetBindGroup { index: 2, group: light },
        RenderCommand::DrawIndexed {
            indices: Span { start: 0, end: mesh.num_elements },
            base_vertex: 0,
            instances,
        },
    ]
}

/// What drawing `mesh` without a material records: as with a material, but
/// camera at group 0 and light at group 1.
pub open spec fn mesh_without_material(
    mesh: Mesh,
    instances: Span,
    camera: BindGroupId,
    light: BindGroupId,
) -> Seq<RenderCommand> {
    seq![
        RenderCommand::SetVertexBuffer { slot: 0, buffer: mesh.vertex_buffer },
        RenderCommand::SetIndexBuffer { buffer: mesh.index_buffer, format: IndexFormat::Uint32 },
        RenderCommand::SetBindGroup { index: 0, group: camera },
        RenderCommand::SetBindGroup { index: 1, group: light },
        RenderCommand::DrawIndexed {
            indices: Span { start: 0, end: mesh.num_elements },
            base_vertex: 0,
            instances,
        },
    ]
}

/// What drawing the first `n` meshes of `model` records, each with the
/// material it refers to, in storage order.
pub open spec fn model_with_material(
    model: ModelView,
    n: int,
    instances: Span,
    camera: BindGroupId,
    light: BindGroupId,
) -> Seq<RenderCommand>
    decreases n,
{
    if n <= 0 {
        Seq::empty()
    } else {
        let mesh = model.meshes[n - 1];
        model_with_material(model, n - 1, instances, camera, light) + mesh_with_material(
            mesh,
            model.materials[mesh.material as int],
            instances,
            camera,
            light,
        )
    }
}

/// What drawing the first `n` meshes of `model` without materials records, in
/// storage order.
pub open spec fn model_without_material(
    model: ModelView,
    n: int,
    instances: Span,
    camera: BindGroupId,
    light: BindGroupId,
) -> Seq<RenderCommand>
    decreases n,
{
    if n <= 0 {
        Seq::empty()
    } else {
        model_without_material(model, n - 1, instances, camera, light) + mesh_without_material(
            model.meshes[n - 1],
            instances,
            camera,
            light,
        )
    }
}

/// Drawing for pipelines whose bind groups are material, camera, light.
pub trait DrawWithMaterial: View<V = Seq<RenderCommand>> + Sized {
    /// Draws one instance of `mesh`: the instanced form over `0..1`.
    fn draw_mesh(
        &mut self,
        mesh: &Mesh,
        material: &Material,
        camera_bind_group: BindGroupId,
        light_bind_group: BindGroupId,
    )
        ensures
            final(self)@ == old(self)@ + mesh_with_material(
                *mesh,
                *material,
                single_instance(),
                camera_bind_group,
                light_bind_group,
            ),
    {
        self.draw_mesh_instanced(mesh, material, 0..1, camera_bind_group, light_bind_group)
    }

    /// Records the bindings of `mesh` and `material` and one indexed draw of
    /// `instances`.
    fn draw_mesh_instanced(
        &mut self,
        mesh: &Mesh,
        material: &Material,
        instances: Range<u32>,
        camera_bind_group: BindGroupId,
        light_bind_group: BindGroupId,
    )
        ensures
            final(self)@ == old(self)@ + mesh_with_material(
                *mesh,
                *material,
                Span::of(instances),
                camera_bind_group,
                light_bind_group,
            ),
    ;

    /// Draws one instance of every mesh of `model`: the instanced form over
    /// `0..1`.
    fn draw_model(
        &mut self,
        model: &Model,
        camera_bind_group: BindGroupId,
        light_bind_group: BindGroupId,
    )
        ensures
            model@.materials_resolve(),
            final(self)@ == old(self)@ + model_with_material(
                model@,
                model@.meshes.len() as int,
                single_instance(),
                camera_bind_group,
                light_bind_group,
            ),
    {
        self.draw_model_instanced(model, 0..1, camera_bind_group, light_bind_group)
    }

    /// Draws the meshes of `model` in storage order, each with the material it
    /// refers to, which a model always has.
    fn draw_model_instanced(
        &mut self,
        model: &Model,
        instances: Range<u32>,
        camera_bind_group: BindGroupId,
        light_bind_group: BindGroupId,
    )
        ensures
            model@.materials_resolve(),
            final(self)@ == old(self)@ + model_with_material(
                model@,
                model@.meshes.len() as int,
                Span::of(instances),
                camera_bind_group,
                light_bind_group,
            ),
    {
        let start = instances.start;
        let end = instances.end;
        let meshes = model.meshes();
        let materials = model.materials();
        let ghost before = self@;
        let mut i: usize = 0;
        while i < meshes.len()
            invariant
                i <= meshes.len(),
                meshes@ == model@.meshes,
                materials@ == model@.materials,
                model@.materials_resolve(),
                start == instances.start,
                end == instances.end,
                self@ == before + model_with_material(
                    model@,
                    i as int,
                    Span::of(instances),
                    camera_bind_group,
                    light_bind_group,
                ),
            decreases meshes.len() - i,
        {
            let mesh = &meshes[i];
            assert(model@.resolves(i as int));
            let material = &materials[mesh.material];
            self.draw_mesh_instanced(
                mesh,
                material,
                start..end,
                camera_bind_group,
                light_bind_group,
            );
            i += 1;
        }
    }
}

/// Drawing for pipelines whose bind groups are camera, light.
pub trait DrawWithoutMaterial: View<V = Seq<RenderCommand>> + Sized {
    /// Draws one instance of `mesh`: the instanced form over `0..1`.
    fn draw_mesh(
        &mut self,
        mesh: &Mesh,
        camera_bind_group: BindGroupId,
        light_bind_group: BindGroupId,
    )
        ensures
            final(self)@ == old(self)@ + mesh_without_material(
                *mesh,
                single_instance(),
                camera_bind_group,
                light_bind_group,
            ),
    {
        self.draw_mesh_instanced(mesh, 0..1, camera_bind_group, light_bind_group)
    }

    /// Records the bindings of `mesh` and one indexed draw of `instances`.
    fn draw_mesh_instanced(
        &mut self,
        mesh: &Mesh,
        instances: Range<u32>,
        camera_bind_group: BindGroupId,
        light_bind_group: BindGroupId,
    )
        ensures
            final(self)@ == old(self)@ + mesh_without_material(
                *mesh,
                Span::of(instances),
                camera_bind_group,
                light_bind_group,
            ),
    ;

    /// Draws one instance of every mesh of `model`: the instanced form over
    /// `0..1`.
    fn draw_model(
        &mut self,
        model: &Model,
        camera_bind_group: BindGroupId,
        light_bind_group: BindGroupId,
    )
        ensures
            model@.materials_resolve(),
            final(self)@ == old(self)@ + model_without_material(
                model@,
                model@.meshes.len() as int,
                single_instance(),
                camera_bind_group,
                light_bind_group,
            ),
    {
        self.draw_model_instanced(model, 0..1, camera_bind_group, light_bind_group)
    }

    /// Draws the meshes of `model` in storage order, all with the same camera
    /// and light groups.
    fn draw_model_instanced(
        &mut self,
        model: &Model,
        instances: Range<u32>,
        camera_bind_group: BindGroupId,
        light_bind_group: BindGroupId,
    )
        ensures
            model@.materials_resolve(),
            final(self)@ == old(self)@ + model_without_material(
                model@,
                model@.meshes.len() as int,
                Span::of(instances),
                camera_bind_group,
                light_bind_group,
            ),
    {
        let start = instances.start;
        let end = instances.end;
        let meshes = model.meshes();
        let ghost before = self@;
        let mut i: usize = 0;
        while i < meshes.len()
            invariant
                i <= meshes.len(),
                meshes@ == model@.meshes,
                model@.materials_resolve(),
                start == instances.start,
                end == instances.end,
                self@ == before + model_without_material(
                    model@,
                    i as int,
                    Span::of(instances),
                    camera_bind_group,
                    light_bind_group,
                ),
            decreases meshes.len() - i,
        {
            self.draw_mesh_instanced(
                &meshes[i],
                start..end,
                camera_bind_group,
                light_bind_group,
            );
            i += 1;
        }
    }
}

impl DrawWithMaterial for RenderPass {
    fn draw_mesh_instanced(
        &mut self,
        mesh: &Mesh,
        material: &Material,
        instances: Range<u32>,
        camera_bind_group: BindGroupId,
        light_bind_group: BindGroupId,
    ) {
        self.set_vertex_buffer(0, mesh.vertex_buffer);
        self.set_index_buffer(mesh.index_buffer, IndexFormat::Uint32);
        self.set_bind_group(0, material.bind_group);
        self.set_bind_group(1, camera_bind_group);
        self.set_bind_group(2, light_bind_group);
        self.draw_indexed(0..mesh.num_elements, 0, instances);
    }
}

impl DrawWithoutMaterial for RenderPass {
    fn draw_mesh_instanced(
        &mut self,
        mesh: &Mesh,
        instances: Range<u32>,
        camera_bind_group: BindGroupId,
        light_bind_group: BindGroupId,
    ) {
        self.set_vertex_buffer(0, mesh.vertex_buffer);
        self.set_index_buffer(mesh.index_buffer, IndexFormat::Uint32);
        self.set_bind_group(0, camera_bind_group);
        self.set_bind_group(1, light_bind_group);
        self.draw_indexed(0..mesh.num_elements, 0, instances);
    }
}

} // verus!
