//! What holds of the commands that the draw strategies record: how many
//! instances they draw, and what every draw call finds bound.

use crate::draw_traits::{
    mesh_with_material, mesh_without_material, model_with_material, model_without_material,
    single_instance,
};
use crate::gpu::{
    instances_drawn, lemma_counts_add, pipeline_binds, BindGroupId, RenderCommand, Span,
};
use crate::model::{Material, Mesh, ModelView};
use crate::pass_state::{
    each_draw, lemma_after_all_concat, lemma_after_all_push, lemma_each_draw_concat,
    lemma_each_draw_weaken, Bound,
};
use std::ops::Range;
use vstd::prelude::*;

verus! {

/// Drawing a single instance is drawing the range `0..1`: what the
/// single-instance forms record of a mesh or a model is what the instanced
/// forms record for that range.
pub proof fn lemma_single_instance_is_range(
    range: Range<u32>,
    mesh: Mesh,
    material: Material,
    model: ModelView,
    n: int,
    camera: BindGroupId,
    light: BindGroupId,
)
    requires
        range.start == 0,
        range.end == 1,
    ensures
        mesh_with_material(mesh, material, single_instance(), camera, light) == mesh_with_material(
            mesh,
            material,
            Span::of(range),
            camera,
            light,
        ),
        mesh_without_material(mesh, single_instance(), camera, light) == mesh_without_material(
            mesh,
            Span::of(range),
            camera,
            light,
        ),
        model_with_material(model, n, single_instance(), camera, light) == model_with_material(
            model,
            n,
            Span::of(range),
            camera,
            light,
        ),
        model_without_material(model, n, single_instance(), camera, light)
            == model_without_material(model, n, Span::of(range), camera, light),
{
}

/// Drawing a mesh binds no pipeline and draws the mesh once for each instance
/// of the span, with or without its material.
pub proof fn lemma_mesh_counts(
    mesh: Mesh,
    material: Material,
    instances: Span,
    camera: BindGroupId,
    light: BindGroupId,
)
    ensures
        instances_drawn(mesh_with_material(mesh, material, instances, camera, light))
            == instances.len(),
        pipeline_binds(mesh_with_material(mesh, material, instances, camera, light)) == 0,
        instances_drawn(mesh_without_material(mesh, instances, camera, light)) == instances.len(),
        pipeline_binds(mesh_without_material(mesh, instances, camera, light)) == 0,
{
    reveal_with_fuel(instances_drawn, 8);
    reveal_with_fuel(pipeline_binds, 8);
}

/// Drawing the first `n` meshes of a model binds no pipeline and draws each
/// of them once for each instance of the span.
pub proof fn lemma_model_counts(
    model: ModelView,
    n: int,
    instances: Span,
    camera: BindGroupId,
    light: BindGroupId,
)
    requires
        0 <= n,
    ensures
        instances_drawn(model_with_material(model, n, instances, camera, light)) == n
            * instances.len(),
        pipeline_binds(model_with_material(model, n, instances, camera, light)) == 0,
        instances_drawn(model_without_material(model, n, instances, camera, light)) == n
            * instances.len(),
        pipeline_binds(model_without_material(model, n, instances, camera, light)) == 0,
    decreases n,
{
    if n > 0 {
        let mesh = model.meshes[n - 1];
        let material = model.materials[mesh.material as int];
        lemma_model_counts(model, n - 1, instances, camera, light);
        lemma_mesh_counts(mesh, material, instances, camera, light);
        lemma_counts_add(
            model_with_material(model, n - 1, instances, camera, light),
            mesh_with_material(mesh, material, instances, camera, light),
        );
        lemma_counts_add(
            model_without_material(model, n - 1, instances, camera, light),
            mesh_without_material(mesh, instances, camera, light),
        );
        assert(n * instances.len() == (n - 1) * instances.len() + instances.len())
            by (nonlinear_arith);
    }
}

/// What is bound once the bindings of a mesh with its material are made:
/// what was bound before, with the mesh's buffers at vertex slot 0 and as
/// index buffer, and material, camera and light at the groups 0, 1 and 2.
pub open spec fn bound_with_material(
    start: Bound,
    mesh: Mesh,
    material: Material,
    camera: BindGroupId,
    light: BindGroupId,
) -> Bound {
    Bound {
        pipeline: start.pipeline,
        index_buffer: Some(mesh.index_buffer),
        vertex_buffers: start.vertex_buffers.insert(0, mesh.vertex_buffer),
        bind_groups: start.bind_groups.insert(0, material.bind_group).insert(1, camera).insert(
            2,
            light,
        ),
    }
}

/// What is bound once the bindings of a mesh without material are made: what
/// was bound before, with the mesh's buffers at vertex slot 0 and as index
/// buffer, and camera and light at the groups 0 and 1.
pub open spec fn bound_without_material(
    start: Bound,
    mesh: Mesh,
    camera: BindGroupId,
    light: BindGroupId,
) -> Bound {
    Bound {
        pipeline: start.pipeline,
        index_buffer: Some(mesh.index_buffer),
        vertex_buffers: start.vertex_buffers.insert(0, mesh.vertex_buffer),
        bind_groups: start.bind_groups.insert(0, camera).insert(1, light),
    }
}

/// The one draw call of a mesh with its material is the last command, and it
/// finds bound exactly `bound_with_material`, which is also what the mesh
/// leaves bound.
pub proof fn lemma_mesh_with_material_bound(
    start: Bound,
    mesh: Mesh,
    material: Material,
    instances: Span,
    camera: BindGroupId,
    light: BindGroupId,
)
    ensures
        ({
            let commands = mesh_with_material(mesh, material, instances, camera, light);
            let bound = bound_with_material(start, mesh, material, camera, light);
            &&& forall|k: int|
                0 <= k < commands.len() && #[trigger] commands[k] is DrawIndexed ==> k == 5
            &&& start.after_all(commands.take(5)) == bound
            &&& start.after_all(commands) == bound
        }),
{
    let commands = mesh_with_material(mesh, material, instances, camera, light);
    let c0 = Seq::<RenderCommand>::empty();
    let c1 = c0.push(commands[0]);
    let c2 = c1.push(commands[1]);
    let c3 = c2.push(commands[2]);
    let c4 = c3.push(commands[3]);
    let c5 = c4.push(commands[4]);
    lemma_after_all_push(start, c0, commands[0]);
    lemma_after_all_push(start, c1, commands[1]);
    lemma_after_all_push(start, c2, commands[2]);
    lemma_after_all_push(start, c3, commands[3]);
    lemma_after_all_push(start, c4, commands[4]);
    lemma_after_all_push(start, c5, commands[5]);
    assert(commands == c5.push(commands[5]));
}

/// The one draw call of a mesh without material is the last command, and it
/// finds bound exactly `bound_without_material`, which is also what the mesh
/// leaves bound.
pub proof fn lemma_mesh_without_material_bound(
    start: Bound,
    mesh: Mesh,
    instances: Span,
    camera: BindGroupId,
    light: BindGroupId,
)
    ensures
        ({
            let commands = mesh_without_material(mesh, instances, camera, light);
            let bound = bound_without_material(start, mesh, camera, light);
            &&& forall|k: int|
                0 <= k < commands.len() && #[trigger] commands[k] is DrawIndexed ==> k == 4
            &&& start.after_all(commands.take(4)) == bound
            &&& start.after_all(commands) == bound
        }),
{
    let commands = mesh_without_material(mesh, instances, camera, light);
    let c0 = Seq::<RenderCommand>::empty();
    let c1 = c0.push(commands[0]);
    let c2 = c1.push(commands[1]);
    let c3 = c2.push(commands[2]);
    let c4 = c3.push(commands[3]);
    lemma_after_all_push(start, c0, commands[0]);
    lemma_after_all_push(start, c1, commands[1]);
    lemma_after_all_push(start, c2, commands[2]);
    lemma_after_all_push(start, c3, commands[3]);
    lemma_after_all_push(start, c4, commands[4]);
    assert(commands == c4.push(commands[4]));
}

/// `bound` holds what drawing mesh `m` of `model` with its material needs:
/// the mesh's vertex buffer at slot 0, its index buffer, and material, camera
/// and light at the groups 0, 1 and 2.
pub open spec fn mesh_ready_with_material(
    bound: Bound,
    model: ModelView,
    m: int,
    camera: BindGroupId,
    light: BindGroupId,
) -> bool {
    let mesh = model.meshes[m];
    &&& bound.has_vertex_buffer(0, mesh.vertex_buffer)
    &&& bound.index_buffer == Some(mesh.index_buffer)
    &&& bound.has_bind_group(0, model.materials[mesh.material as int].bind_group)
    &&& bound.has_bind_group(1, camera)
    &&& bound.has_bind_group(2, light)
}

/// `bound` holds what drawing mesh `m` of `model` without material needs: the
/// mesh's vertex buffer at slot 0, its index buffer, and camera and light at
/// the groups 0 and 1.
pub open spec fn mesh_ready_without_material(
    bound: Bound,
    model: ModelView,
    m: int,
    camera: BindGroupId,
    light: BindGroupId,
) -> bool {
    let mesh = model.meshes[m];
    &&& bound.has_vertex_buffer(0, mesh.vertex_buffer)
    &&& bound.index_buffer == Some(mesh.index_buffer)
    &&& bound.has_bind_group(0, camera)
    &&& bound.has_bind_group(1, light)
}

/// `bound` differs from `start` at most in what a mesh binds: the pipeline and
/// the vertex buffers at the slots other than 0 are those of `start`.
pub open spec fn keeps_pipeline_and_slots(start: Bound, bound: Bound) -> bool {
    &&& bound.pipeline == start.pipeline
    &&& bound.vertex_buffers.remove(0) == start.vertex_buffers.remove(0)
}

/// `bound` is fit for a draw call of one of the first `n` meshes of `model`
/// with its material, in a pass that had `start` bound before the model.
pub open spec fn model_ready_with_material(
    start: Bound,
    bound: Bound,
    model: ModelView,
    n: int,
    camera: BindGroupId,
    light: BindGroupId,
) -> bool {
    &&& keeps_pipeline_and_slots(start, bound)
    &&& exists|m: int|
        0 <= m < n && #[trigger] mesh_ready_with_material(bound, model, m, camera, light)
}

/// `bound` is fit for a draw call of one of the first `n` meshes of `model`
/// without material, in a pass that had `start` bound before the model.
pub open spec fn model_ready_without_material(
    start: Bound,
    bound: Bound,
    model: ModelView,
    n: int,
    camera: BindGroupId,
    light: BindGroupId,
) -> bool {
    &&& keeps_pipeline_and_slots(start, bound)
    &&& exists|m: int|
        0 <= m < n && #[trigger] mesh_ready_without_material(bound, model, m, camera, light)
}

/// Every draw call of a model drawn with materials finds bound the buffers of
/// one of the model's meshes and that mesh's material, with camera and light,
/// and the pipeline and the other vertex buffers as they were before the
/// model. The model leaves pipeline and other vertex buffers as they were.
pub proof fn lemma_model_with_material_ready(
    start: Bound,
    model: ModelView,
    n: int,
    instances: Span,
    camera: BindGroupId,
    light: BindGroupId,
)
    requires
        0 <= n <= model.meshes.len(),
    ensures
        each_draw(
            start,
            model_with_material(model, n, instances, camera, light),
            |bound: Bound| model_ready_with_material(start, bound, model, n, camera, light),
        ),
        keeps_pipeline_and_slots(
            start,
            start.after_all(model_with_material(model, n, instances, camera, light)),
        ),
    decreases n,
{
    let holds = |bound: Bound| model_ready_with_material(start, bound, model, n, camera, light);
    if n > 0 {
        let mesh = model.meshes[n - 1];
        let material = model.materials[mesh.material as int];
        let before = model_with_material(model, n - 1, instances, camera, light);
        let commands = mesh_with_material(mesh, material, instances, camera, light);
        let middle = start.after_all(before);
        lemma_model_with_material_ready(start, model, n - 1, instances, camera, light);
        lemma_each_draw_weaken(
            start,
            before,
            |bound: Bound| model_ready_with_material(start, bound, model, n - 1, camera, light),
            holds,
        );
        lemma_mesh_with_material_bound(middle, mesh, material, instances, camera, light);
        let bound = bound_with_material(middle, mesh, material, camera, light);
        assert(bound.vertex_buffers.remove(0) == middle.vertex_buffers.remove(0));
        assert(mesh_ready_with_material(bound, model, n - 1, camera, light));
        lemma_each_draw_concat(start, before, commands, holds);
        lemma_after_all_concat(start, before, commands);
    }
}

/// Every draw call of a model drawn without materials finds bound the buffers
/// of one of the model's meshes, with camera and light, and the pipeline and
/// the other vertex buffers as they were before the model. The model leaves
/// pipeline and other vertex buffers as they were.
pub proof fn lemma_model_without_material_ready(
    start: Bound,
    model: ModelView,
    n: int,
    instances: Span,
    camera: BindGroupId,
    light: BindGroupId,
)
    requires
        0 <= n <= model.meshes.len(),
    ensures
        each_draw(
            start,
            model_without_material(model, n, instances, camera, light),
            |bound: Bound| model_ready_without_material(start, bound, model, n, camera, light),
        ),
        keeps_pipeline_and_slots(
            start,
            start.after_all(model_without_material(model, n, instances, camera, light)),
        ),
    decreases n,
{
    let holds = |bound: Bound| model_ready_without_material(start, bound, model, n, camera, light);
    if n > 0 {
        let mesh = model.meshes[n - 1];
        let before = model_without_material(model, n - 1, instances, camera, light);
        let commands = mesh_without_material(mesh, instances, camera, light);
        let middle = start.after_all(before);
        lemma_model_without_material_ready(start, model, n - 1, instances, camera, light);
        lemma_each_draw_weaken(
            start,
            before,
            |bound: Bound| model_ready_without_material(start, bound, model, n - 1, camera, light),
            holds,
        );
        lemma_mesh_without_material_bound(middle, mesh, instances, camera, light);
        let bound = bound_without_material(middle, mesh, camera, light);
        assert(bound.vertex_buffers.remove(0) == middle.vertex_buffers.remove(0));
        assert(mesh_ready_without_material(bound, model, n - 1, camera, light));
        lemma_each_draw_concat(start, before, commands, holds);
        lemma_after_all_concat(start, before, commands);
    }
}

} // verus!
