use scene_renderer::draw_traits::DrawMethod;
use scene_renderer::gpu::{
    BindGroupId, BufferId, BufferUsages, IndexFormat, RenderCommand, RenderPass, Span,
};
use scene_renderer::instance::{pack, InstanceRaw, RECORD_SIZE};
use scene_renderer::model::{Material, Mesh, Model};
use scene_renderer::renderable_object::{InstanceBuffer, RenderableObject};
use std::sync::Arc;

const CAMERA: BindGroupId = BindGroupId(100);
const LIGHT: BindGroupId = BindGroupId(101);

fn record(seed: u32) -> InstanceRaw {
    let mut model = [[0u32; 4]; 4];
    let mut normal = [[0u32; 3]; 3];
    for i in 0..16 {
        model[i / 4][i % 4] = seed.wrapping_mul(31).wrapping_add(i as u32);
    }
    for i in 0..9 {
        normal[i / 3][i % 3] = seed.wrapping_mul(17).wrapping_add(i as u32);
    }
    InstanceRaw { model, normal }
}

fn records(n: u32) -> Vec<InstanceRaw> {
    (0..n).map(record).collect()
}

fn cube() -> Arc<Model> {
    Arc::new(
        Model::new(
            vec![Mesh {
                name: "cube".to_string(),
                vertex_buffer: BufferId(1),
                index_buffer: BufferId(2),
                num_elements: 36,
                material: 0,
            }],
            vec![Material { name: "stone".to_string(), bind_group: BindGroupId(3) }],
        )
        .unwrap(),
    )
}

#[test]
fn new_object_keeps_its_parts() {
    let model = cube();
    let object = RenderableObject::new(
        BufferId(9),
        model.clone(),
        records(3),
        Some("light".to_string()),
        DrawMethod::WithoutMaterial,
    );
    assert!(Arc::ptr_eq(&object.model, &model));
    assert_eq!(object.instance_buffer.id(), BufferId(9));
    assert_eq!(object.instance_buffer.records(), &records(3));
    assert_eq!(object.instance_buffer.instance_count(), 3);
    assert_eq!(object.pipeline_name, Some("light".to_string()));
    assert_eq!(object.draw_method, DrawMethod::WithoutMaterial);
}

#[test]
fn buffer_holds_one_record_for_each_instance() {
    for n in [0u32, 1, 2, 7, 100] {
        let object =
            RenderableObject::new(BufferId(9), cube(), records(n), None, DrawMethod::WithMaterial);
        let contents = object.instance_buffer.contents();
        assert_eq!(contents.len(), n as usize * RECORD_SIZE);
        assert_eq!(contents, &pack(&records(n)));
        assert_eq!(object.instance_buffer.instance_count(), n);
    }
}

#[test]
fn buffer_contents_are_the_records_in_memory_order() {
    let buffer = InstanceBuffer::new(BufferId(4), vec![record(1), record(2)]);
    let mut words = Vec::new();
    record(1).write_words(&mut words);
    record(2).write_words(&mut words);
    let mut expected = Vec::new();
    for w in words {
        expected.extend_from_slice(&w.to_ne_bytes());
    }
    assert_eq!(buffer.contents(), &expected);
}

#[test]
fn instance_buffer_feeds_vertices_and_takes_writes() {
    let buffer = InstanceBuffer::new(BufferId(4), records(2));
    assert_eq!(
        buffer.usage(),
        BufferUsages { vertex: true, index: false, uniform: false, copy_dst: true }
    );
}

#[test]
fn update_instances_rebuilds_the_whole_buffer() {
    let model = cube();
    let mut object = RenderableObject::new(
        BufferId(9),
        model.clone(),
        records(4),
        Some("p".to_string()),
        DrawMethod::WithMaterial,
    );
    let fresh: Vec<InstanceRaw> = (10..14).map(record).collect();
    object.update_instances(fresh.clone());
    assert_eq!(object.instance_buffer.records(), &fresh);
    assert_eq!(object.instance_buffer.contents(), &pack(&fresh));
    assert_eq!(object.instance_buffer.contents().len(), 4 * RECORD_SIZE);
    // The rest of the object is as it was.
    assert_eq!(object.instance_buffer.id(), BufferId(9));
    assert!(Arc::ptr_eq(&object.model, &model));
    assert_eq!(object.pipeline_name, Some("p".to_string()));
    assert_eq!(object.draw_method, DrawMethod::WithMaterial);
}

#[test]
fn update_instances_follows_the_count() {
    let mut object =
        RenderableObject::new(BufferId(9), cube(), records(4), None, DrawMethod::WithMaterial);
    object.update_instances(records(6));
    assert_eq!(object.instance_buffer.instance_count(), 6);
    assert_eq!(object.instance_buffer.contents().len(), 6 * RECORD_SIZE);
    object.update_instances(Vec::new());
    assert_eq!(object.instance_buffer.instance_count(), 0);
    assert!(object.instance_buffer.contents().is_empty());
}

#[test]
fn draw_with_material_covers_all_instances() {
    let object =
        RenderableObject::new(BufferId(9), cube(), records(5), None, DrawMethod::WithMaterial);
    let mut pass = RenderPass::new();
    object.draw(&mut pass, CAMERA, LIGHT);
    assert_eq!(
        pass.finish(),
        vec![
            RenderCommand::SetVertexBuffer { slot: 0, buffer: BufferId(1) },
            RenderCommand::SetIndexBuffer { buffer: BufferId(2), format: IndexFormat::Uint32 },
            RenderCommand::SetBindGroup { index: 0, group: BindGroupId(3) },
            RenderCommand::SetBindGroup { index: 1, group: CAMERA },
            RenderCommand::SetBindGroup { index: 2, group: LIGHT },
            RenderCommand::DrawIndexed {
                indices: Span { start: 0, end: 36 },
                base_vertex: 0,
                instances: Span { start: 0, end: 5 },
            },
        ]
    );
}

#[test]
fn draw_without_material_covers_all_instances() {
    let object =
        RenderableObject::new(BufferId(9), cube(), records(2), None, DrawMethod::WithoutMaterial);
    let mut pass = RenderPass::new();
    object.draw(&mut pass, CAMERA, LIGHT);
    assert_eq!(
        pass.finish(),
        vec![
            RenderCommand::SetVertexBuffer { slot: 0, buffer: BufferId(1) },
            RenderCommand::SetIndexBuffer { buffer: BufferId(2), format: IndexFormat::Uint32 },
            RenderCommand::SetBindGroup { index: 0, group: CAMERA },
            RenderCommand::SetBindGroup { index: 1, group: LIGHT },
            RenderCommand::DrawIndexed {
                indices: Span { start: 0, end: 36 },
                base_vertex: 0,
                instances: Span { start: 0, end: 2 },
            },
        ]
    );
}

#[test]
fn draw_after_update_uses_the_new_count() {
    let mut object =
        RenderableObject::new(BufferId(9), cube(), records(2), None, DrawMethod::WithoutMaterial);
    object.update_instances(records(8));
    let mut pass = RenderPass::new();
    object.draw(&mut pass, CAMERA, LIGHT);
    let commands = pass.finish();
    assert_eq!(
        commands[4],
        RenderCommand::DrawIndexed {
            indices: Span { start: 0, end: 36 },
            base_vertex: 0,
            instances: Span { start: 0, end: 8 },
        }
    );
}

#[test]
fn object_without_instances_draws_an_empty_range() {
    let object =
        RenderableObject::new(BufferId(9), cube(), Vec::new(), None, DrawMethod::WithMaterial);
    assert_eq!(object.instance_buffer.instance_count(), 0);
    assert!(object.instance_buffer.contents().is_empty());
    let mut pass = RenderPass::new();
    object.draw(&mut pass, CAMERA, LIGHT);
    let commands = pass.finish();
    assert_eq!(commands.len(), 6);
    assert_eq!(
        commands[5],
        RenderCommand::DrawIndexed {
            indices: Span { start: 0, end: 36 },
            base_vertex: 0,
            instances: Span { start: 0, end: 0 },
        }
    );
}
