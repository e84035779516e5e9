//! The frame orchestrator: the pipelines and the objects of the scene, what
//! one frame records, and what holds of every frame.

use crate::draw_traits::DrawMethod;
use crate::frame_laws::{
    lemma_frame_counts, lemma_frame_draws_ready, lemma_frame_pipelines_registered,
};
use crate::gpu::{
    instances_drawn, pipeline_binds, pipelines_below, BindGroupId, BindGroupLayoutId, BufferId,
    RenderCommand, RenderPass, TextureFormat,
};
use crate::input::{KeyCode, MouseButton};
use crate::instance::{instance_layout, InstanceRaw};
use crate::model::{
    layout_views, Model, Vertex, VertexBufferLayout, VertexBufferLayoutView,
};
use crate::pass_state::{each_draw, Bound};
use crate::pipeline_manager::{PipelineCache, PipelineManager};
use crate::renderable_object::{name_view, RenderableObject};
use crate::surface::{is_preferred_format, preferred_format, Surface};
use std::sync::Arc;
use vstd::prelude::*;

verus! {

/// Name of the pipeline that draws textured, lit meshes, and of the pipeline
/// of every object that names none.
pub const MAIN_PIPELINE: &'static str = "main";

/// Name of the pipeline that draws the light's indicator.
pub const LIGHT_PIPELINE: &'static str = "light";

/// Vertex slot at which an object's instance buffer is bound.
pub const INSTANCE_SLOT: u32 = 1;

/// What the pipelines and bind groups of the scene were created as.
#[derive(Clone, Copy, Debug, PartialEq, Eq, Structural)]
pub struct SceneBindings {
    /// Layout of a material's textures and samplers.
    pub texture_bind_group_layout: BindGroupLayoutId,
    pub camera_bind_group_layout: BindGroupLayoutId,
    pub light_bind_group_layout: BindGroupLayoutId,
    pub camera_bind_group: BindGroupId,
    pub light_bind_group: BindGroupId,
}

/// The name under which the pipeline of `object` is looked up.
pub open spec fn pipeline_name_of(object: RenderableObject) -> Seq<char> {
    match object.pipeline_name {
        Some(name) => name@,
        None => MAIN_PIPELINE@,
    }
}

/// The orchestrator as contracts see it.
pub struct StateView {
    pub surface: Surface,
    pub pipelines: PipelineCache,
    /// The objects in the order they were added, which is the order they are
    /// drawn in.
    pub objects: Seq<RenderableObject>,
    pub camera_bind_group: BindGroupId,
    pub light_bind_group: BindGroupId,
    /// The left mouse button is down.
    pub mouse_pressed: bool,
}

impl StateView {
    /// The pipelines and objects are those that `State::new` sets up: the main
    /// pipeline binds material, camera and light and reads model vertices and
    /// instance records; the light pipeline binds camera and light and reads
    /// model vertices; the scene holds the main object, drawn with materials
    /// by the main pipeline, and then the light's indicator, drawn without
    /// materials by the light pipeline, both of `model`.
    pub open spec fn has_initial_scene(
        self,
        format: TextureFormat,
        bindings: SceneBindings,
        main_shader: Seq<char>,
        light_shader: Seq<char>,
        model_vertex_layout: VertexBufferLayoutView,
        model: Arc<Model>,
        instances: Seq<InstanceRaw>,
        instance_buffer: BufferId,
        light_instances: Seq<InstanceRaw>,
        light_instance_buffer: BufferId,
    ) -> bool {
        &&& holds_scene_pipelines(
            self.pipelines,
            format,
            bindings,
            main_shader,
            light_shader,
            model_vertex_layout,
        )
        &&& self.objects.len() == 2
        &&& self.objects[0].is_made_of(
            instance_buffer,
            model,
            instances,
            None,
            DrawMethod::WithMaterial,
        )
        &&& self.objects[1].is_made_of(
            light_instance_buffer,
            model,
            light_instances,
            Some(LIGHT_PIPELINE@),
            DrawMethod::WithoutMaterial,
        )
        &&& self.camera_bind_group == bindings.camera_bind_group
        &&& self.light_bind_group == bindings.light_bind_group
    }

    /// The state is the one made for a window of `width` by `height` whose
    /// surface offers `formats`: the surface has the preferred format and the
    /// window's size but is not yet configured, pipelines and objects are the
    /// initial scene, and no mouse button is down.
    pub open spec fn is_initial(
        self,
        width: u32,
        height: u32,
        formats: Seq<TextureFormat>,
        bindings: SceneBindings,
        main_shader: Seq<char>,
        light_shader: Seq<char>,
        model_vertex_layout: VertexBufferLayoutView,
        model: Arc<Model>,
        instances: Seq<InstanceRaw>,
        instance_buffer: BufferId,
        light_instances: Seq<InstanceRaw>,
        light_instance_buffer: BufferId,
    ) -> bool {
        let format = self.surface.config.format;
        &&& is_preferred_format(formats, format)
        &&& self.surface == Surface::initial(format, width, height)
        &&& self.has_initial_scene(
            format,
            bindings,
            main_shader,
            light_shader,
            model_vertex_layout,
            model,
            instances,
            instance_buffer,
            light_instances,
            light_instance_buffer,
        )
        &&& !self.mouse_pressed
    }

    /// Handle of the pipeline that object `i` is drawn with, if its name is
    /// registered.
    pub open spec fn pipeline_of(self, i: int) -> Option<usize> {
        self.pipelines.lookup(pipeline_name_of(self.objects[i]))
    }

    /// What a frame records for object `i`: nothing where its pipeline is
    /// missing; else the pipeline, the instance buffer at `INSTANCE_SLOT`,
    /// and the object's own draw.
    pub open spec fn object_commands(self, i: int) -> Seq<RenderCommand> {
        match self.pipeline_of(i) {
            Some(pipeline) => seq![
                RenderCommand::SetPipeline { pipeline },
                RenderCommand::SetVertexBuffer {
                    slot: INSTANCE_SLOT,
                    buffer: self.objects[i].instance_buffer@.id,
                },
            ] + self.objects[i].draw_commands(self.camera_bind_group, self.light_bind_group),
            None => Seq::empty(),
        }
    }

    /// What a frame records for the first `n` objects, in insertion order.
    pub open spec fn frame_commands(self, n: int) -> Seq<RenderCommand>
        decreases n,
    {
        if n <= 0 {
            Seq::empty()
        } else {
            self.frame_commands(n - 1) + self.object_commands(n - 1)
        }
    }

    /// What `render` returns in this state: no frame before the surface is
    /// configured, and then the commands for all objects.
    pub open spec fn rendered(self, frame: Option<RenderPass>) -> bool {
        match frame {
            None => !self.surface.is_configured,
            Some(pass) => {
                &&& self.surface.is_configured
                &&& pass@ == self.frame_commands(self.objects.len() as int)
            },
        }
    }
}

/// The cache holds the two pipelines of the scene: the main pipeline, which
/// binds material, camera and light and reads model vertices and instance
/// records, under handle 0, and the light pipeline, which binds camera and
/// light and reads model vertices, under handle 1.
pub open spec fn holds_scene_pipelines(
    cache: PipelineCache,
    format: TextureFormat,
    bindings: SceneBindings,
    main_shader: Seq<char>,
    light_shader: Seq<char>,
    model_vertex_layout: VertexBufferLayoutView,
) -> bool {
    &&& cache.names == Map::<Seq<char>, usize>::empty().insert(MAIN_PIPELINE@, 0).insert(
        LIGHT_PIPELINE@,
        1,
    )
    &&& cache.lookup(MAIN_PIPELINE@) == Some(0usize)
    &&& cache.lookup(LIGHT_PIPELINE@) == Some(1usize)
    &&& cache.pipelines.len() == 2
    &&& cache.pipelines[0].describes(
        MAIN_PIPELINE@,
        main_shader,
        seq![
            bindings.texture_bind_group_layout,
            bindings.camera_bind_group_layout,
            bindings.light_bind_group_layout,
        ],
        seq![model_vertex_layout, instance_layout()],
        format,
    )
    &&& cache.pipelines[1].describes(
        LIGHT_PIPELINE@,
        light_shader,
        seq![bindings.camera_bind_group_layout, bindings.light_bind_group_layout],
        seq![model_vertex_layout],
        format,
    )
}

/// Registers the main and the light pipeline, in this order.
fn scene_pipelines(
    format: TextureFormat,
    bindings: SceneBindings,
    main_shader: &str,
    light_shader: &str,
    model_vertex_layout: &VertexBufferLayout,
) -> (pipeline_manager: PipelineManager)
    ensures
        holds_scene_pipelines(
            pipeline_manager@,
            format,
            bindings,
            main_shader@,
            light_shader@,
            model_vertex_layout@,
        ),
        pipeline_manager@.well_formed(),
{
    let mut pipeline_manager = PipelineManager::new();
    let main_bind_groups = [
        bindings.texture_bind_group_layout,
        bindings.camera_bind_group_layout,
        bindings.light_bind_group_layout,
    ];
    let main_vertex_layouts = [model_vertex_layout.duplicate(), InstanceRaw::desc()];
    pipeline_manager.add_pipeline(
        MAIN_PIPELINE.to_owned(),
        main_shader,
        main_bind_groups.as_slice(),
        main_vertex_layouts.as_slice(),
        format,
    );
    let light_bind_groups = [
        bindings.camera_bind_group_layout,
        bindings.light_bind_group_layout,
    ];
    let light_vertex_layouts = [model_vertex_layout.duplicate()];
    proof {
        reveal_strlit("main");
        reveal_strlit("light");
        assert(MAIN_PIPELINE@.len() != LIGHT_PIPELINE@.len());
    }
    pipeline_manager.add_pipeline(
        LIGHT_PIPELINE.to_owned(),
        light_shader,
        light_bind_groups.as_slice(),
        light_vertex_layouts.as_slice(),
        format,
    );

    proof {
        let twice = pipeline_manager@;
        assert(twice.pipelines[0] == twice.pipelines.take(1)[0]);
        assert(main_bind_groups@ == seq![
            bindings.texture_bind_group_layout,
            bindings.camera_bind_group_layout,
            bindings.light_bind_group_layout,
        ]);
        assert(layout_views(main_vertex_layouts@) == seq![
            model_vertex_layout@,
            instance_layout(),
        ]);
        assert(light_bind_groups@ == seq![
            bindings.camera_bind_group_layout,
            bindings.light_bind_group_layout,
        ]);
        assert(layout_views(light_vertex_layouts@) == seq![model_vertex_layout@]);
    }
    pipeline_manager
}

/// Owns what a frame is made from.
pub struct State {
    surface: Surface,
    pipeline_manager: PipelineManager,
    objects: Vec<RenderableObject>,
    camera_bind_group: BindGroupId,
    light_bind_group: BindGroupId,
    mouse_pressed: bool,
}

impl View for State {
    type V = StateView;

    closed spec fn view(&self) -> StateView {
        StateView {
            surface: self.surface,
            pipelines: self.pipeline_manager@,
            objects: self.objects@,
            camera_bind_group: self.camera_bind_group,
            light_bind_group: self.light_bind_group,
            mouse_pressed: self.mouse_pressed,
        }
    }
}

impl State {
    #[verifier::type_invariant]
    spec fn valid(self) -> bool {
        &&& self.surface.consistent()
        &&& self.pipeline_manager@.well_formed()
    }

    /// Sets up the scene for a window of `width` by `height`: chooses the
    /// surface's format among `formats`, registers the main and the light
    /// pipeline, and makes the main object and the light's indicator, which
    /// share `model`. The surface counts as unconfigured until the first
    /// resize.
    pub fn new(
        width: u32,
        height: u32,
        formats: &[TextureFormat],
        bindings: SceneBindings,
        main_shader: &str,
        light_shader: &str,
        model_vertex_layout: &VertexBufferLayout,
        model: Arc<Model>,
        instances: Vec<InstanceRaw>,
        instance_buffer: BufferId,
        light_instances: Vec<InstanceRaw>,
        light_instance_buffer: BufferId,
    ) -> (state: State)
        requires
            formats.len() > 0,
        ensures
            state@.is_initial(
                width,
                height,
                formats@,
                bindings,
                main_shader@,
                light_shader@,
                model_vertex_layout@,
                model,
                instances@,
                instance_buffer,
                light_instances@,
                light_instance_buffer,
            ),
            state@.pipelines.well_formed(),
    {
        let format = preferred_format(formats);
        let surface = Surface::new(format, width, height);

        let pipeline_manager = scene_pipelines(
            format,
            bindings,
            main_shader,
            light_shader,
            model_vertex_layout,
        );
        let mut objects: Vec<RenderableObject> = Vec::new();
        objects.push(
            RenderableObject::new(
                instance_buffer,
                model.clone(),
                instances,
                None,
                DrawMethod::WithMaterial,
            ),
        );
        objects.push(
            RenderableObject::new(
                light_instance_buffer,
                model,
                light_instances,
                Some(LIGHT_PIPELINE.to_owned()),
                DrawMethod::WithoutMaterial,
            ),
        );

        State {
            surface,
            pipeline_manager,
            objects,
            camera_bind_group: bindings.camera_bind_group,
            light_bind_group: bindings.light_bind_group,
            mouse_pressed: false,
        }
    }

    /// Appends an object of `model` to the scene.
    pub fn add_object(
        &mut self,
        instance_buffer: BufferId,
        model: Arc<Model>,
        instances: Vec<InstanceRaw>,
        pipeline_name: Option<String>,
        draw_method: DrawMethod,
    )
        ensures
            final(self)@.objects.len() == old(self)@.objects.len() + 1,
            final(self)@.objects.drop_last() == old(self)@.objects,
            final(self)@.objects.last().is_made_of(
                instance_buffer,
                model,
                instances@,
                name_view(pipeline_name),
                draw_method,
            ),
            final(self)@.objects.last().pipeline_name == pipeline_name,
            final(self)@ == (StateView { objects: final(self)@.objects, ..old(self)@ }),
    {
        proof {
            use_type_invariant(&*self);
        }
        let object = RenderableObject::new(
            instance_buffer,
            model,
            instances,
            pipeline_name,
            draw_method,
        );
        let mut objects = Vec::new();
        std::mem::swap(&mut objects, &mut self.objects);
        objects.push(object);
        self.objects = objects;
    }

    /// Replaces the instances of the object at position `object` and has it
    /// rebuild the contents of its instance buffer. The result says whether
    /// there is such an object; where there is none, nothing changes.
    pub fn update_instances(&mut self, object: usize, instances: Vec<InstanceRaw>) -> (updated:
        bool)
        ensures
            updated == (object < old(self)@.objects.len()),
            !updated ==> final(self)@ == old(self)@,
            updated ==> {
                let before = old(self)@.objects[object as int];
                let after = final(self)@.objects[object as int];
                &&& final(self)@ == (StateView { objects: final(self)@.objects, ..old(self)@ })
                &&& final(self)@.objects == old(self)@.objects.update(object as int, after)
                &&& after.is_made_of(
                    before.instance_buffer@.id,
                    before.model,
                    instances@,
                    name_view(before.pipeline_name),
                    before.draw_method,
                )
                &&& after.pipeline_name == before.pipeline_name
            },
    {
        proof {
            use_type_invariant(&*self);
        }
        if object >= self.objects.len() {
            return false;
        }
        let mut objects = Vec::new();
        std::mem::swap(&mut objects, &mut self.objects);
        let mut changed = objects.remove(object);
        changed.update_instances(instances);
        objects.insert(object, changed);
        assert(objects@ == old(self)@.objects.update(object as int, changed));
        self.objects = objects;
        true
    }

    /// Takes notice that the window is now `width` by `height`. A size with
    /// an area sets the surface, the depth buffer and the projection to it
    /// and marks the surface configured; the result then tells the caller to
    /// reconfigure the surface and to recreate the depth buffer. A size
    /// without area is ignored.
    pub fn resize(&mut self, width: u32, height: u32) -> (reconfigure: bool)
        ensures
            reconfigure == (width > 0 && height > 0),
            final(self)@ == (StateView {
                surface: old(self)@.surface.resized(width, height),
                ..old(self)@
            }),
            width == 0 || height == 0 ==> final(self)@ == old(self)@,
            final(self)@.surface.consistent(),
    {
        proof {
            use_type_invariant(&*self);
        }
        self.surface = self.surface.resize(width, height);
        width > 0 && height > 0
    }

    /// Decides whether a key event ends the program: it does when the camera
    /// controller had no use for the key (`consumed` is false) and the key is
    /// Escape, going down.
    pub fn handle_key(&self, consumed: bool, key: KeyCode, pressed: bool) -> (exit: bool)
        ensures
            exit == (!consumed && key == KeyCode::Escape && pressed),
    {
        if !consumed {
            match (key, pressed) {
                (KeyCode::Escape, true) => true,
                _ => false,
            }
        } else {
            false
        }
    }

    /// Tracks the left mouse button; the other buttons change nothing.
    pub fn handle_mouse_button(&mut self, button: MouseButton, pressed: bool)
        ensures
            final(self)@ == (StateView {
                mouse_pressed: if button == MouseButton::Left {
                    pressed
                } else {
                    old(self)@.mouse_pressed
                },
                ..old(self)@
            }),
    {
        proof {
            use_type_invariant(&*self);
        }
        match button {
            MouseButton::Left => {
                self.mouse_pressed = pressed;
            },
            _ => {},
        }
    }

    /// Records one frame. Before the surface is configured there is no frame
    /// and the result is `None`. Else every object is drawn in insertion
    /// order: an object whose pipeline name is not registered is left out,
    /// any other has its pipeline bound, then its instance buffer, then draws
    /// itself.
    ///
    /// In a frame every draw call finds its state bound: replayed from the
    /// start of a pass, it has the pipeline, the instance buffer and a mesh's
    /// buffers and bind groups of one of the objects. The frame binds only
    /// pipelines that the cache holds, one for each object that is drawn, and
    /// draws each mesh of such an object once for each instance.
    pub fn render(&self) -> (frame: Option<RenderPass>)
        ensures
            self@.rendered(frame),
            frame matches Some(pass) ==> {
                let n = self@.objects.len() as int;
                &&& each_draw(Bound::nothing(), pass@, |bound: Bound| self@.frame_ready(n, bound))
                &&& pipelines_below(pass@, self@.pipelines.pipelines.len())
                &&& pipeline_binds(pass@) == self@.registered_before(n)
                &&& instances_drawn(pass@) == self@.frame_instances(n)
            },
    {
        proof {
            use_type_invariant(self);
        }
        if !self.surface.is_configured {
            return None;
        }
        let mut render_pass = RenderPass::new();
        let mut i: usize = 0;
        while i < self.objects.len()
            invariant
                i <= self.objects.len(),
                self.surface.is_configured,
                render_pass@ == self@.frame_commands(i as int),
            decreases self.objects.len() - i,
        {
            let object = &self.objects[i];
            let pipeline_name = match &object.pipeline_name {
                Some(name) => name.as_str(),
                None => MAIN_PIPELINE,
            };
            if let Some(pipeline) = self.pipeline_manager.get_by_name(pipeline_name) {
                render_pass.set_pipeline(pipeline);
                render_pass.set_vertex_buffer(INSTANCE_SLOT, object.instance_buffer.id());
                object.draw(&mut render_pass, self.camera_bind_group, self.light_bind_group);
            }
            i += 1;
        }
        proof {
            lemma_frame_draws_ready(self@, self.objects.len() as int);
            lemma_frame_pipelines_registered(self@, self.objects.len() as int);
            lemma_frame_counts(self@, self.objects.len() as int);
        }
        Some(render_pass)
    }

    /// How the surface, the depth buffer and the projection are sized.
    pub fn surface(&self) -> (surface: Surface)
        ensures
            surface == self@.surface,
            surface.consistent(),
    {
        proof {
            use_type_invariant(self);
        }
        self.surface
    }

    /// The pipelines of the scene.
    pub fn pipeline_manager(&self) -> (manager: &PipelineManager)
        ensures
            manager@ == self@.pipelines,
            manager@.well_formed(),
    {
        proof {
            use_type_invariant(self);
        }
        &self.pipeline_manager
    }

    /// The objects of the scene, in insertion order.
    pub fn objects(&self) -> (objects: &Vec<RenderableObject>)
        ensures
            objects@ == self@.objects,
    {
        &self.objects
    }

    /// The left mouse button is down.
    pub fn mouse_pressed(&self) -> (pressed: bool)
        ensures
            pressed == self@.mouse_pressed,
    {
        self.mouse_pressed
    }
}

} // verus!
