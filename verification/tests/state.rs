use scene_renderer::draw_traits::DrawMethod;
use scene_renderer::gpu::{
    BindGroupId, BindGroupLayoutId, BufferId, IndexFormat, RenderCommand, RenderPass, Span,
    TextureFormat,
};
use scene_renderer::instance::{pack, InstanceRaw};
use scene_renderer::model::{
    Material, Mesh, Model, Vertex, VertexAttribute, VertexBufferLayout, VertexFormat,
    VertexStepMode,
};
use scene_renderer::input::{KeyCode, MouseButton};
use scene_renderer::state::{SceneBindings, State, INSTANCE_SLOT, LIGHT_PIPELINE, MAIN_PIPELINE};
use scene_renderer::surface::{
    preferred_format, DepthTexture, Surface, SurfaceConfiguration, Viewport, FRAME_LATENCY,
};
use std::sync::Arc;

const CAMERA: BindGroupId = BindGroupId(70);
const LIGHT: BindGroupId = BindGroupId(71);
const MAIN_INSTANCES: BufferId = BufferId(30);
const LIGHT_INSTANCES: BufferId = BufferId(31);

fn bindings() -> SceneBindings {
    SceneBindings {
        texture_bind_group_layout: BindGroupLayoutId(60),
        camera_bind_group_layout: BindGroupLayoutId(61),
        light_bind_group_layout: BindGroupLayoutId(62),
        camera_bind_group: CAMERA,
        light_bind_group: LIGHT,
    }
}

fn model_vertex_layout() -> VertexBufferLayout {
    VertexBufferLayout {
        array_stride: 32,
        step_mode: VertexStepMode::Vertex,
        attributes: vec![
            VertexAttribute { format: VertexFormat::Float32x3, offset: 0, shader_location: 0 },
            VertexAttribute { format: VertexFormat::Float32x2, offset: 12, shader_location: 1 },
            VertexAttribute { format: VertexFormat::Float32x3, offset: 20, shader_location: 2 },
        ],
    }
}

fn record(seed: u32) -> InstanceRaw {
    let mut model = [[0u32; 4]; 4];
    let mut normal = [[0u32; 3]; 3];
    for i in 0..16 {
        model[i / 4][i % 4] = seed * 100 + i as u32;
    }
    for i in 0..9 {
        normal[i / 3][i % 3] = seed * 100 + 50 + i as u32;
    }
    InstanceRaw { model, normal }
}

fn records(n: u32) -> Vec<InstanceRaw> {
    (0..n).map(record).collect()
}

fn cube() -> Arc<Model> {
    Arc::new(
        Model::new(
            vec![Mesh {
                name: "cube".to_string(),
                vertex_buffer: BufferId(1),
                index_buffer: BufferId(2),
                num_elements: 36,
                material: 0,
            }],
            vec![Material { name: "stone".to_string(), bind_group: BindGroupId(3) }],
        )
        .unwrap(),
    )
}

fn scene_of(model: Arc<Model>, n: u32) -> State {
    State::new(
        800,
        600,
        &[TextureFormat::Bgra8Unorm, TextureFormat::Bgra8UnormSrgb],
        bindings(),
        "main shader",
        "light shader",
        &model_vertex_layout(),
        model,
        records(n),
        MAIN_INSTANCES,
        vec![record(1000)],
        LIGHT_INSTANCES,
    )
}

fn scene(n: u32) -> State {
    scene_of(cube(), n)
}

fn initial_surface(format: TextureFormat, width: u32, height: u32, configured: bool) -> Surface {
    Surface {
        config: SurfaceConfiguration {
            format,
            width,
            height,
            desired_maximum_frame_latency: 2,
        },
        depth_texture: DepthTexture { format: TextureFormat::Depth32Float, width, height },
        projection: Viewport { width, height },
        is_configured: configured,
    }
}

fn commands(frame: Option<RenderPass>) -> Vec<RenderCommand> {
    frame.unwrap().finish()
}

fn instances_drawn(commands: &[RenderCommand]) -> u32 {
    let mut total = 0;
    for c in commands {
        if let RenderCommand::DrawIndexed { instances, .. } = c {
            total += instances.end - instances.start;
        }
    }
    total
}

fn pipeline_binds(commands: &[RenderCommand]) -> Vec<usize> {
    let mut binds = Vec::new();
    for c in commands {
        if let RenderCommand::SetPipeline { pipeline } = c {
            binds.push(*pipeline);
        }
    }
    binds
}

#[test]
fn constants() {
    assert_eq!(MAIN_PIPELINE, "main");
    assert_eq!(LIGHT_PIPELINE, "light");
    assert_eq!(INSTANCE_SLOT, 1);
    assert_eq!(FRAME_LATENCY, 2);
}

#[test]
fn preferred_format_is_the_first_srgb() {
    assert_eq!(
        preferred_format(&[
            TextureFormat::Bgra8Unorm,
            TextureFormat::Rgba8UnormSrgb,
            TextureFormat::Bgra8UnormSrgb,
        ]),
        TextureFormat::Rgba8UnormSrgb
    );
    assert_eq!(
        preferred_format(&[TextureFormat::Bgra8UnormSrgb, TextureFormat::Rgba8UnormSrgb]),
        TextureFormat::Bgra8UnormSrgb
    );
}

#[test]
fn preferred_format_falls_back_to_the_first() {
    assert_eq!(
        preferred_format(&[TextureFormat::Rgba16Float, TextureFormat::Bgra8Unorm]),
        TextureFormat::Rgba16Float
    );
    assert_eq!(preferred_format(&[TextureFormat::Rgb10a2Unorm]), TextureFormat::Rgb10a2Unorm);
}

#[test]
fn new_state_is_sized_but_not_configured() {
    let state = scene(3);
    assert_eq!(state.surface(), initial_surface(TextureFormat::Bgra8UnormSrgb, 800, 600, false));
    assert!(!state.mouse_pressed());
}

#[test]
fn new_state_registers_main_then_light() {
    let state = scene(3);
    let manager = state.pipeline_manager();
    assert_eq!(manager.get_by_name("main"), Some(0));
    assert_eq!(manager.get_by_name("light"), Some(1));
    assert!(manager.get(2).is_none());

    let main = manager.get(0).unwrap();
    assert_eq!(main.layout_label, "main Pipeline Layout");
    assert_eq!(main.shader_label, "main Shader");
    assert_eq!(main.shader_source, "main shader");
    assert_eq!(
        main.bind_group_layouts,
        vec![BindGroupLayoutId(60), BindGroupLayoutId(61), BindGroupLayoutId(62)]
    );
    assert_eq!(main.vertex_layouts, vec![model_vertex_layout(), InstanceRaw::desc()]);
    assert_eq!(main.color_format, TextureFormat::Bgra8UnormSrgb);
    assert_eq!(main.depth_format, Some(TextureFormat::Depth32Float));

    let light = manager.get(1).unwrap();
    assert_eq!(light.layout_label, "light Pipeline Layout");
    assert_eq!(light.shader_label, "light Shader");
    assert_eq!(light.shader_source, "light shader");
    assert_eq!(light.bind_group_layouts, vec![BindGroupLayoutId(61), BindGroupLayoutId(62)]);
    assert_eq!(light.vertex_layouts, vec![model_vertex_layout()]);
    assert_eq!(light.color_format, TextureFormat::Bgra8UnormSrgb);
    assert_eq!(light.depth_format, Some(TextureFormat::Depth32Float));
}

#[test]
fn new_state_holds_the_main_object_and_the_light() {
    let model = cube();
    let state = scene_of(model.clone(), 4);
    let objects = state.objects();
    assert_eq!(objects.len(), 2);

    assert!(Arc::ptr_eq(&objects[0].model, &model));
    assert_eq!(objects[0].instance_buffer.id(), MAIN_INSTANCES);
    assert_eq!(objects[0].instance_buffer.records(), &records(4));
    assert_eq!(objects[0].instance_buffer.contents(), &pack(&records(4)));
    assert_eq!(objects[0].pipeline_name, None);
    assert_eq!(objects[0].draw_method, DrawMethod::WithMaterial);

    assert!(Arc::ptr_eq(&objects[1].model, &model));
    assert_eq!(objects[1].instance_buffer.id(), LIGHT_INSTANCES);
    assert_eq!(objects[1].instance_buffer.records(), &vec![record(1000)]);
    assert_eq!(objects[1].pipeline_name, Some("light".to_string()));
    assert_eq!(objects[1].draw_method, DrawMethod::WithoutMaterial);
}

#[test]
fn resize_sets_surface_depth_and_projection() {
    let mut state = scene(1);
    assert!(state.resize(1024, 768));
    assert_eq!(state.surface(), initial_surface(TextureFormat::Bgra8UnormSrgb, 1024, 768, true));
    assert!(state.resize(1, 1));
    assert_eq!(state.surface(), initial_surface(TextureFormat::Bgra8UnormSrgb, 1, 1, true));
}

#[test]
fn resize_without_area_changes_nothing() {
    for (width, height) in [(0, 0), (0, 600), (800, 0), (0, u32::MAX), (u32::MAX, 0)] {
        // Before the surface is configured.
        let mut state = scene(2);
        let before = state.surface();
        assert!(!state.resize(width, height));
        assert_eq!(state.surface(), before);
        assert!(!state.surface().is_configured);
        assert!(state.render().is_none());

        // And after.
        let mut state = scene(2);
        assert!(state.resize(640, 480));
        let before = state.surface();
        let frame = commands(state.render());
        assert!(!state.resize(width, height));
        assert_eq!(state.surface(), before);
        assert_eq!(state.surface().config.width, 640);
        assert_eq!(state.surface().config.height, 480);
        assert_eq!(state.surface().depth_texture.width, 640);
        assert_eq!(state.surface().depth_texture.height, 480);
        assert_eq!(state.surface().projection, Viewport { width: 640, height: 480 });
        assert_eq!(commands(state.render()), frame);
        assert_eq!(state.objects().len(), 2);
    }
}

#[test]
fn both_pipelines_are_registered_under_their_names() {
    let state = scene(1);
    let manager = state.pipeline_manager();
    assert_eq!(manager.get_by_name("main"), Some(0));
    assert_eq!(manager.get_by_name("light"), Some(1));
    assert_eq!(manager.get_by_name("main_pipeline"), None);
    assert_eq!(manager.get_by_name("light_pipeline"), None);
    assert_eq!(manager.len(), 2);
}

#[test]
fn object_named_main_with_only_main_registered_is_drawn() {
    // An unnamed object is looked up under "main".
    let mut state = scene(2);
    state.resize(800, 600);
    let frame = commands(state.render());
    assert_eq!(frame[0], RenderCommand::SetPipeline { pipeline: 0 });
    assert_eq!(frame[1], RenderCommand::SetVertexBuffer { slot: 1, buffer: MAIN_INSTANCES });
    assert_eq!(state.objects()[0].pipeline_name, None);
}

#[test]
fn unnamed_pipeline_is_the_main_pipeline() {
    let mut state = scene(1);
    state.resize(800, 600);
    let two = commands(state.render());
    state.add_object(BufferId(40), cube(), records(2), None, DrawMethod::WithoutMaterial);
    state.add_object(
        BufferId(41),
        cube(),
        records(2),
        Some("main".to_string()),
        DrawMethod::WithoutMaterial,
    );
    let frame = commands(state.render());
    assert_eq!(frame[two.len()], RenderCommand::SetPipeline { pipeline: 0 });
    assert_eq!(pipeline_binds(&frame), vec![0, 1, 0, 0]);
}

#[test]
fn no_frame_before_the_surface_is_configured() {
    let state = scene(5);
    assert!(state.render().is_none());
}

#[test]
fn frame_of_two_objects() {
    for n in [0u32, 1, 3, 100] {
        let mut state = scene(n);
        state.resize(800, 600);
        let frame = commands(state.render());
        assert_eq!(
            frame,
            vec![
                // The main object, with materials.
                RenderCommand::SetPipeline { pipeline: 0 },
                RenderCommand::SetVertexBuffer { slot: 1, buffer: MAIN_INSTANCES },
                RenderCommand::SetVertexBuffer { slot: 0, buffer: BufferId(1) },
                RenderCommand::SetIndexBuffer { buffer: BufferId(2), format: IndexFormat::Uint32 },
                RenderCommand::SetBindGroup { index: 0, group: BindGroupId(3) },
                RenderCommand::SetBindGroup { index: 1, group: CAMERA },
                RenderCommand::SetBindGroup { index: 2, group: LIGHT },
                RenderCommand::DrawIndexed {
                    indices: Span { start: 0, end: 36 },
                    base_vertex: 0,
                    instances: Span { start: 0, end: n },
                },
                // The light's indicator, without.
                RenderCommand::SetPipeline { pipeline: 1 },
                RenderCommand::SetVertexBuffer { slot: 1, buffer: LIGHT_INSTANCES },
                RenderCommand::SetVertexBuffer { slot: 0, buffer: BufferId(1) },
                RenderCommand::SetIndexBuffer { buffer: BufferId(2), format: IndexFormat::Uint32 },
                RenderCommand::SetBindGroup { index: 0, group: CAMERA },
                RenderCommand::SetBindGroup { index: 1, group: LIGHT },
                RenderCommand::DrawIndexed {
                    indices: Span { start: 0, end: 36 },
                    base_vertex: 0,
                    instances: Span { start: 0, end: 1 },
                },
            ]
        );
        assert_eq!(instances_drawn(&frame), n + 1);
        assert_eq!(pipeline_binds(&frame), vec![0, 1]);
    }
}

#[test]
fn object_with_unknown_pipeline_is_left_out() {
    let mut state = scene(3);
    state.resize(800, 600);
    let before = commands(state.render());
    state.add_object(
        BufferId(40),
        cube(),
        records(9),
        Some("ghost".to_string()),
        DrawMethod::WithMaterial,
    );
    assert_eq!(state.objects().len(), 3);
    // The frame is the one without the object.
    assert_eq!(commands(state.render()), before);

    // Objects after the one left out still draw.
    state.add_object(
        BufferId(41),
        cube(),
        records(2),
        Some("light".to_string()),
        DrawMethod::WithoutMaterial,
    );
    let frame = commands(state.render());
    assert_eq!(frame.len(), before.len() + 7);
    assert_eq!(frame[..before.len()].to_vec(), before);
    assert_eq!(
        frame[before.len()..].to_vec(),
        vec![
            RenderCommand::SetPipeline { pipeline: 1 },
            RenderCommand::SetVertexBuffer { slot: 1, buffer: BufferId(41) },
            RenderCommand::SetVertexBuffer { slot: 0, buffer: BufferId(1) },
            RenderCommand::SetIndexBuffer { buffer: BufferId(2), format: IndexFormat::Uint32 },
            RenderCommand::SetBindGroup { index: 0, group: CAMERA },
            RenderCommand::SetBindGroup { index: 1, group: LIGHT },
            RenderCommand::DrawIndexed {
                indices: Span { start: 0, end: 36 },
                base_vertex: 0,
                instances: Span { start: 0, end: 2 },
            },
        ]
    );
    assert_eq!(instances_drawn(&frame), 3 + 1 + 2);
    assert_eq!(pipeline_binds(&frame), vec![0, 1, 1]);
    assert!(!frame.contains(&RenderCommand::SetVertexBuffer { slot: 1, buffer: BufferId(40) }));
}

#[test]
fn only_unknown_pipelines_give_the_frame_of_the_scene() {
    let mut state = State::new(
        10,
        10,
        &[TextureFormat::Rgba8Unorm],
        bindings(),
        "",
        "",
        &model_vertex_layout(),
        cube(),
        vec![],
        MAIN_INSTANCES,
        vec![],
        LIGHT_INSTANCES,
    );
    state.resize(10, 10);
    let two = commands(state.render());
    for name in ["ghost", "main_pipeline", "Main", "main ", ""] {
        state.add_object(
            BufferId(40),
            cube(),
            records(1),
            Some(name.to_string()),
            DrawMethod::WithMaterial,
        );
        assert_eq!(commands(state.render()), two);
    }
    assert_eq!(state.objects().len(), 7);
}

#[test]
fn add_object_appends_in_insertion_order() {
    let mut state = scene(1);
    state.resize(800, 600);
    let surface = state.surface();
    let model = cube();
    state.add_object(BufferId(40), model.clone(), records(2), None, DrawMethod::WithMaterial);
    state.add_object(
        BufferId(41),
        model.clone(),
        records(3),
        Some("light".to_string()),
        DrawMethod::WithoutMaterial,
    );
    let objects = state.objects();
    assert_eq!(objects.len(), 4);
    assert_eq!(objects[0].instance_buffer.id(), MAIN_INSTANCES);
    assert_eq!(objects[1].instance_buffer.id(), LIGHT_INSTANCES);
    assert_eq!(objects[2].instance_buffer.id(), BufferId(40));
    assert_eq!(objects[2].instance_buffer.records(), &records(2));
    assert_eq!(objects[2].pipeline_name, None);
    assert_eq!(objects[2].draw_method, DrawMethod::WithMaterial);
    assert!(Arc::ptr_eq(&objects[2].model, &model));
    assert_eq!(objects[3].instance_buffer.id(), BufferId(41));
    assert_eq!(objects[3].pipeline_name, Some("light".to_string()));
    assert_eq!(objects[3].draw_method, DrawMethod::WithoutMaterial);
    // Nothing else moved.
    assert_eq!(state.surface(), surface);
    assert!(!state.mouse_pressed());
    assert_eq!(state.pipeline_manager().get_by_name("main"), Some(0));

    let frame = commands(state.render());
    assert_eq!(pipeline_binds(&frame), vec![0, 1, 0, 1]);
    assert_eq!(instances_drawn(&frame), 1 + 1 + 2 + 3);
    let mut slots = Vec::new();
    for c in &frame {
        if let RenderCommand::SetVertexBuffer { slot: 1, buffer } = c {
            slots.push(*buffer);
        }
    }
    assert_eq!(slots, vec![MAIN_INSTANCES, LIGHT_INSTANCES, BufferId(40), BufferId(41)]);
}

#[test]
fn escape_going_down_exits() {
    let state = scene(1);
    assert!(state.handle_key(false, KeyCode::Escape, true));
}

#[test]
fn other_key_events_do_not_exit() {
    let state = scene(1);
    assert!(!state.handle_key(false, KeyCode::Escape, false));
    assert!(!state.handle_key(false, KeyCode::Other, true));
    assert!(!state.handle_key(false, KeyCode::Other, false));
    // A key the camera controller used never exits.
    assert!(!state.handle_key(true, KeyCode::Escape, true));
    assert!(!state.handle_key(true, KeyCode::Escape, false));
    assert!(!state.handle_key(true, KeyCode::Other, true));
    assert!(!state.handle_key(true, KeyCode::Other, false));
}

#[test]
fn left_button_is_tracked() {
    let mut state = scene(1);
    state.handle_mouse_button(MouseButton::Left, true);
    assert!(state.mouse_pressed());
    state.handle_mouse_button(MouseButton::Left, true);
    assert!(state.mouse_pressed());
    state.handle_mouse_button(MouseButton::Left, false);
    assert!(!state.mouse_pressed());
}

#[test]
fn other_buttons_change_nothing() {
    let others = [
        MouseButton::Right,
        MouseButton::Middle,
        MouseButton::Back,
        MouseButton::Forward,
        MouseButton::Other(0),
        MouseButton::Other(7),
    ];
    let mut state = scene(1);
    let surface = state.surface();
    for button in others {
        state.handle_mouse_button(button, true);
        assert!(!state.mouse_pressed());
    }
    state.handle_mouse_button(MouseButton::Left, true);
    for button in others {
        state.handle_mouse_button(button, false);
        assert!(state.mouse_pressed());
    }
    assert_eq!(state.surface(), surface);
    assert_eq!(state.objects().len(), 2);
}

/// Replays the commands from the start of a pass and checks at every draw
/// call that a pipeline, the vertex buffers at slots 0 and 1, an index buffer
/// and the bind groups from 0 to `groups - 1` are bound, where `groups` is
/// what the bound pipeline asks for.
fn check_draw_state(commands: &[RenderCommand], groups_of_pipeline: &[u32]) -> u32 {
    let mut pipeline: Option<usize> = None;
    let mut vertex_buffers = std::collections::HashMap::new();
    let mut index_buffer = None;
    let mut bind_groups = std::collections::HashMap::new();
    let mut draws = 0;
    for command in commands {
        match *command {
            RenderCommand::SetPipeline { pipeline: p } => pipeline = Some(p),
            RenderCommand::SetVertexBuffer { slot, buffer } => {
                vertex_buffers.insert(slot, buffer);
            }
            RenderCommand::SetIndexBuffer { buffer, .. } => index_buffer = Some(buffer),
            RenderCommand::SetBindGroup { index, group } => {
                bind_groups.insert(index, group);
            }
            RenderCommand::DrawIndexed { .. } => {
                let p = pipeline.unwrap();
                assert!(vertex_buffers.contains_key(&0));
                assert!(vertex_buffers.contains_key(&1));
                assert!(index_buffer.is_some());
                for slot in 0..groups_of_pipeline[p] {
                    assert!(bind_groups.contains_key(&slot));
                }
                assert_eq!(bind_groups[&(groups_of_pipeline[p] - 1)], LIGHT);
                assert_eq!(bind_groups[&(groups_of_pipeline[p] - 2)], CAMERA);
                draws += 1;
            }
        }
    }
    draws
}

#[test]
fn every_draw_call_finds_its_state_bound() {
    let two_meshes = Arc::new(
        Model::new(
            vec![
                Mesh {
                    name: "a".to_string(),
                    vertex_buffer: BufferId(1),
                    index_buffer: BufferId(2),
                    num_elements: 3,
                    material: 1,
                },
                Mesh {
                    name: "b".to_string(),
                    vertex_buffer: BufferId(3),
                    index_buffer: BufferId(4),
                    num_elements: 6,
                    material: 0,
                },
            ],
            vec![
                Material { name: "m0".to_string(), bind_group: BindGroupId(5) },
                Material { name: "m1".to_string(), bind_group: BindGroupId(6) },
            ],
        )
        .unwrap(),
    );
    let mut state = scene_of(two_meshes.clone(), 4);
    state.resize(800, 600);
    state.add_object(
        BufferId(40),
        two_meshes.clone(),
        records(2),
        Some("ghost".to_string()),
        DrawMethod::WithMaterial,
    );
    state.add_object(
        BufferId(41),
        two_meshes.clone(),
        records(3),
        Some("light".to_string()),
        DrawMethod::WithoutMaterial,
    );
    state.add_object(BufferId(42), two_meshes, records(5), None, DrawMethod::WithMaterial);
    let frame = commands(state.render());
    // The main pipeline binds three groups, the light pipeline two.
    let draws = check_draw_state(&frame, &[3, 2]);
    assert_eq!(draws, 2 * 4);
    assert_eq!(pipeline_binds(&frame), vec![0, 1, 1, 0]);
    assert_eq!(instances_drawn(&frame), 2 * (4 + 1 + 3 + 5));
}

#[test]
fn update_instances_rebuilds_one_object() {
    let model = cube();
    let mut state = scene_of(model.clone(), 3);
    state.resize(800, 600);
    let surface = state.surface();
    let fresh: Vec<InstanceRaw> = (50..55).map(record).collect();
    assert!(state.update_instances(0, fresh.clone()));
    let objects = state.objects();
    assert_eq!(objects.len(), 2);
    assert_eq!(objects[0].instance_buffer.id(), MAIN_INSTANCES);
    assert_eq!(objects[0].instance_buffer.records(), &fresh);
    assert_eq!(objects[0].instance_buffer.contents(), &pack(&fresh));
    assert_eq!(objects[0].instance_buffer.contents().len(), 500);
    assert_eq!(objects[0].pipeline_name, None);
    assert_eq!(objects[0].draw_method, DrawMethod::WithMaterial);
    assert!(Arc::ptr_eq(&objects[0].model, &model));
    // The other object and the rest of the state are as they were.
    assert_eq!(objects[1].instance_buffer.id(), LIGHT_INSTANCES);
    assert_eq!(objects[1].instance_buffer.records(), &vec![record(1000)]);
    assert_eq!(state.surface(), surface);
    // The frame draws the new number of instances.
    let frame = commands(state.render());
    assert_eq!(instances_drawn(&frame), 5 + 1);
}

#[test]
fn update_instances_of_no_object_changes_nothing() {
    let mut state = scene(3);
    state.resize(800, 600);
    let frame = commands(state.render());
    assert!(!state.update_instances(2, records(9)));
    assert!(!state.update_instances(usize::MAX, records(9)));
    assert_eq!(state.objects().len(), 2);
    assert_eq!(state.objects()[0].instance_buffer.records(), &records(3));
    assert_eq!(commands(state.render()), frame);
}

#[test]
fn preferred_format_counts_unnamed_formats() {
    let plain = TextureFormat::Other { index: 0, srgb: false };
    let srgb = TextureFormat::Other { index: 1, srgb: true };
    assert_eq!(preferred_format(&[plain, srgb, TextureFormat::Bgra8UnormSrgb]), srgb);
    assert_eq!(preferred_format(&[plain, TextureFormat::Bgra8Unorm]), plain);
    assert_eq!(preferred_format(&[plain]), plain);
}
