//! What holds of every frame: which pipelines it binds, how many instances
//! it draws, and that no draw call goes without its state.

use crate::draw_laws::{
    lemma_model_counts, lemma_model_with_material_ready, lemma_model_without_material_ready,
    mesh_ready_with_material, mesh_ready_without_material, model_ready_with_material,
    model_ready_without_material,
};
use crate::draw_traits::DrawMethod;
use crate::gpu::{
    instances_drawn, lemma_counts_add, lemma_no_binds_below, pipeline_binds, pipelines_below,
    BufferId, RenderCommand, TextureFormat,
};
use crate::instance::InstanceRaw;
use crate::model::{Model, VertexBufferLayoutView};
use crate::pass_state::{
    each_draw, lemma_after_all_push, lemma_each_draw_concat, lemma_each_draw_weaken, Bound,
};
use crate::state::{
    pipeline_name_of, SceneBindings, StateView, INSTANCE_SLOT, LIGHT_PIPELINE, MAIN_PIPELINE,
};
use std::sync::Arc;
use vstd::prelude::*;

verus! {

impl StateView {
    /// Number of instances a frame draws of object `i`: none where its
    /// pipeline is missing, else every mesh of its model once for each of its
    /// instances.
    pub open spec fn object_instances(self, i: int) -> nat {
        if self.pipeline_of(i) is Some {
            (self.objects[i].shared_model().meshes.len()
                * self.objects[i].all_instances().len()) as nat
        } else {
            0
        }
    }

    /// Number of instances a frame draws of the first `n` objects.
    pub open spec fn frame_instances(self, n: int) -> nat
        decreases n,
    {
        if n <= 0 {
            0
        } else {
            self.frame_instances(n - 1) + self.object_instances(n - 1)
        }
    }

    /// Number of objects among the first `n` whose pipeline is registered.
    pub open spec fn registered_before(self, n: int) -> nat
        decreases n,
    {
        if n <= 0 {
            0
        } else {
            self.registered_before(n - 1) + if self.pipeline_of(n - 1) is Some {
                1nat
            } else {
                0nat
            }
        }
    }

    /// `bound` is fit for a draw call of object `i`: the object's pipeline,
    /// its instance buffer at `INSTANCE_SLOT`, and the buffers and bind groups
    /// of one of its meshes, at the slots of the object's draw strategy.
    pub open spec fn object_ready(self, i: int, bound: Bound) -> bool {
        let object = self.objects[i];
        let model = object.shared_model();
        &&& self.pipeline_of(i) is Some
        &&& bound.pipeline == self.pipeline_of(i)
        &&& bound.has_vertex_buffer(INSTANCE_SLOT, object.instance_buffer@.id)
        &&& match object.draw_method {
            DrawMethod::WithMaterial => exists|m: int|
                0 <= m < model.meshes.len() && #[trigger] mesh_ready_with_material(
                    bound,
                    model,
                    m,
                    self.camera_bind_group,
                    self.light_bind_group,
                ),
            DrawMethod::WithoutMaterial => exists|m: int|
                0 <= m < model.meshes.len() && #[trigger] mesh_ready_without_material(
                    bound,
                    model,
                    m,
                    self.camera_bind_group,
                    self.light_bind_group,
                ),
        }
    }

    /// `bound` is fit for a draw call of one of the first `n` objects.
    pub open spec fn frame_ready(self, n: int, bound: Bound) -> bool {
        exists|i: int| 0 <= i < n && #[trigger] self.object_ready(i, bound)
    }
}

/// An object whose pipeline name is not registered is left out of the frame:
/// nothing is recorded for it, and the frame is the one without it.
pub proof fn lemma_unregistered_object_is_left_out(state: StateView, i: int)
    requires
        0 <= i < state.objects.len(),
        !state.pipelines.names.contains_key(pipeline_name_of(state.objects[i])),
    ensures
        state.object_commands(i) == Seq::<RenderCommand>::empty(),
        state.frame_commands(i + 1) == state.frame_commands(i),
{
}

/// A frame binds a pipeline once for each object whose pipeline is registered,
/// and draws of each such object every mesh once for each instance. Objects
/// without a registered pipeline add nothing.
pub proof fn lemma_frame_counts(state: StateView, n: int)
    requires
        0 <= n <= state.objects.len(),
    ensures
        pipeline_binds(state.frame_commands(n)) == state.registered_before(n),
        instances_drawn(state.frame_commands(n)) == state.frame_instances(n),
    decreases n,
{
    if n > 0 {
        lemma_frame_counts(state, n - 1);
        lemma_object_counts(state, n - 1);
        lemma_counts_add(state.frame_commands(n - 1), state.object_commands(n - 1));
    }
}

/// What a frame records for one object binds one pipeline and draws every
/// mesh once for each instance, or is nothing at all where the object's
/// pipeline is missing.
pub proof fn lemma_object_counts(state: StateView, i: int)
    requires
        0 <= i < state.objects.len(),
    ensures
        pipeline_binds(state.object_commands(i)) == if state.pipeline_of(i) is Some {
            1nat
        } else {
            0nat
        },
        instances_drawn(state.object_commands(i)) == state.object_instances(i),
{
    let object = state.objects[i];
    match state.pipeline_of(i) {
        Some(pipeline) => {
            let head = seq![
                RenderCommand::SetPipeline { pipeline },
                RenderCommand::SetVertexBuffer {
                    slot: INSTANCE_SLOT,
                    buffer: object.instance_buffer@.id,
                },
            ];
            let draw = object.draw_commands(state.camera_bind_group, state.light_bind_group);
            reveal_with_fuel(instances_drawn, 3);
            reveal_with_fuel(pipeline_binds, 3);
            lemma_model_counts(
                object.shared_model(),
                object.shared_model().meshes.len() as int,
                object.all_instances(),
                state.camera_bind_group,
                state.light_bind_group,
            );
            lemma_counts_add(head, draw);
        },
        None => {},
    }
}

/// The scene that `State::new` sets up, with a model of one mesh and one
/// instance of the light's indicator, is drawn in two pipeline binds and as
/// many instances as the main object has, and one. No object is left out.
pub proof fn lemma_initial_frame_counts(
    state: StateView,
    format: TextureFormat,
    bindings: SceneBindings,
    main_shader: Seq<char>,
    light_shader: Seq<char>,
    model_vertex_layout: VertexBufferLayoutView,
    model: Arc<Model>,
    instances: Seq<InstanceRaw>,
    instance_buffer: BufferId,
    light_instances: Seq<InstanceRaw>,
    light_instance_buffer: BufferId,
)
    requires
        state.has_initial_scene(
            format,
            bindings,
            main_shader,
            light_shader,
            model_vertex_layout,
            model,
            instances,
            instance_buffer,
            light_instances,
            light_instance_buffer,
        ),
        model@.meshes.len() == 1,
        instances.len() <= u32::MAX,
        light_instances.len() == 1,
    ensures
        state.pipeline_of(0) == Some(0usize),
        state.pipeline_of(1) == Some(1usize),
        pipeline_binds(state.frame_commands(2)) == 2,
        instances_drawn(state.frame_commands(2)) == instances.len() + 1,
{
    reveal_strlit("main");
    reveal_strlit("light");
    assert(MAIN_PIPELINE@.len() != LIGHT_PIPELINE@.len());
    lemma_frame_counts(state, 2);
    reveal_with_fuel(StateView::frame_instances, 3);
    reveal_with_fuel(StateView::registered_before, 3);
    assert(state.objects[0].all_instances().len() == instances.len());
    assert(state.objects[1].all_instances().len() == 1);
    assert(state.objects[0].shared_model().meshes.len() == 1);
    assert(state.objects[1].shared_model().meshes.len() == 1);
    assert(state.object_instances(0) == instances.len());
    assert(state.object_instances(1) == 1);
}

/// Whatever was bound before, every draw call that a frame records for an
/// object finds bound the object's pipeline, its instance buffer, and the
/// buffers and bind groups of one of its meshes at the slots of the object's
/// draw strategy.
pub proof fn lemma_object_draws_ready(state: StateView, i: int, start: Bound)
    requires
        0 <= i < state.objects.len(),
    ensures
        each_draw(start, state.object_commands(i), |bound: Bound| state.object_ready(i, bound)),
{
    let holds = |bound: Bound| state.object_ready(i, bound);
    let object = state.objects[i];
    let model = object.shared_model();
    let n = model.meshes.len() as int;
    let camera = state.camera_bind_group;
    let light = state.light_bind_group;
    match state.pipeline_of(i) {
        Some(pipeline) => {
            let set_pipeline = RenderCommand::SetPipeline { pipeline };
            let set_instances = RenderCommand::SetVertexBuffer {
                slot: INSTANCE_SLOT,
                buffer: object.instance_buffer@.id,
            };
            let head = seq![set_pipeline, set_instances];
            let draw = object.draw_commands(camera, light);
            let middle = start.after_all(head);
            assert(middle == start.after(set_pipeline).after(set_instances)) by {
                lemma_after_all_push(start, Seq::empty(), set_pipeline);
                lemma_after_all_push(start, Seq::empty().push(set_pipeline), set_instances);
                assert(head == Seq::empty().push(set_pipeline).push(set_instances));
            }
            match object.draw_method {
                DrawMethod::WithMaterial => {
                    lemma_model_with_material_ready(
                        middle,
                        model,
                        n,
                        object.all_instances(),
                        camera,
                        light,
                    );
                    assert forall|bound: Bound| #[trigger]
                        model_ready_with_material(
                            middle,
                            bound,
                            model,
                            n,
                            camera,
                            light,
                        ) implies holds(bound) by {
                        assert(middle.vertex_buffers.remove(0).contains_key(INSTANCE_SLOT));
                        assert(bound.vertex_buffers.remove(0)[INSTANCE_SLOT]
                            == object.instance_buffer@.id);
                    }
                    lemma_each_draw_weaken(
                        middle,
                        draw,
                        |bound: Bound|
                            model_ready_with_material(middle, bound, model, n, camera, light),
                        holds,
                    );
                },
                DrawMethod::WithoutMaterial => {
                    lemma_model_without_material_ready(
                        middle,
                        model,
                        n,
                        object.all_instances(),
                        camera,
                        light,
                    );
                    assert forall|bound: Bound| #[trigger]
                        model_ready_without_material(
                            middle,
                            bound,
                            model,
                            n,
                            camera,
                            light,
                        ) implies holds(bound) by {
                        assert(middle.vertex_buffers.remove(0).contains_key(INSTANCE_SLOT));
                        assert(bound.vertex_buffers.remove(0)[INSTANCE_SLOT]
                            == object.instance_buffer@.id);
                    }
                    lemma_each_draw_weaken(
                        middle,
                        draw,
                        |bound: Bound|
                            model_ready_without_material(middle, bound, model, n, camera, light),
                        holds,
                    );
                },
            }
            lemma_each_draw_concat(start, head, draw, holds);
        },
        None => {},
    }
}

/// No draw call of a frame goes without its state. Replayed from the start
/// of a pass, where nothing is bound, every draw call of a frame finds bound
/// what one of the objects needs: that object's pipeline, its instance
/// buffer, and the buffers and bind groups of one of its meshes at the slots
/// of its draw strategy.
pub proof fn lemma_frame_draws_ready(state: StateView, n: int)
    requires
        0 <= n <= state.objects.len(),
    ensures
        each_draw(
            Bound::nothing(),
            state.frame_commands(n),
            |bound: Bound| state.frame_ready(n, bound),
        ),
    decreases n,
{
    let holds = |bound: Bound| state.frame_ready(n, bound);
    if n > 0 {
        let before = state.frame_commands(n - 1);
        let middle = Bound::nothing().after_all(before);
        lemma_frame_draws_ready(state, n - 1);
        lemma_each_draw_weaken(
            Bound::nothing(),
            before,
            |bound: Bound| state.frame_ready(n - 1, bound),
            holds,
        );
        lemma_object_draws_ready(state, n - 1, middle);
        lemma_each_draw_weaken(
            middle,
            state.object_commands(n - 1),
            |bound: Bound| state.object_ready(n - 1, bound),
            holds,
        );
        lemma_each_draw_concat(Bound::nothing(), before, state.object_commands(n - 1), holds);
    }
}

/// Every pipeline a frame binds is one that the pipeline cache holds.
pub proof fn lemma_frame_pipelines_registered(state: StateView, n: int)
    requires
        0 <= n <= state.objects.len(),
        state.pipelines.well_formed(),
    ensures
        pipelines_below(state.frame_commands(n), state.pipelines.pipelines.len()),
    decreases n,
{
    if n > 0 {
        let count = state.pipelines.pipelines.len();
        let object = state.objects[n - 1];
        lemma_frame_pipelines_registered(state, n - 1);
        if state.pipeline_of(n - 1) is Some {
            // The object's own draw binds no pipeline, and the one bound
            // before it is the one its name leads to.
            lemma_model_counts(
                object.shared_model(),
                object.shared_model().meshes.len() as int,
                object.all_instances(),
                state.camera_bind_group,
                state.light_bind_group,
            );
            lemma_no_binds_below(
                object.draw_commands(state.camera_bind_group, state.light_bind_group),
                count,
            );
            assert(pipelines_below(state.object_commands(n - 1), count));
        }
    }
}

} // verus!
