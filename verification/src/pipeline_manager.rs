//! The cache of render pipelines, one for each name.

use crate::gpu::{BindGroupLayoutId, TextureFormat};
use crate::model::{layout_views, VertexBufferLayout, VertexBufferLayoutView};
use vstd::hash_map::StringHashMap;
use vstd::prelude::*;
use vstd::slice::slice_to_vec;
use vstd::string::StringExecFns;

verus! {

/// Depth format of every pipeline the manager describes.
pub const DEPTH_FORMAT: TextureFormat = TextureFormat::Depth32Float;

/// What a pipeline is compiled from. The owner of the device compiles one
/// pipeline for each descriptor, and keeps it under the descriptor's handle.
#[derive(Debug, PartialEq, Eq)]
pub struct PipelineDescriptor {
    /// Label of the pipeline's layout.
    pub layout_label: String,
    /// Label of the shader module.
    pub shader_label: String,
    /// Source text of the shader.
    pub shader_source: String,
    /// Layouts of the bind groups, by slot.
    pub bind_group_layouts: Vec<BindGroupLayoutId>,
    /// Layouts of the vertex buffers, by slot.
    pub vertex_layouts: Vec<VertexBufferLayout>,
    /// Format of the colour target.
    pub color_format: TextureFormat,
    /// Format of the depth target, if the pipeline tests depth.
    pub depth_format: Option<TextureFormat>,
}

impl PipelineDescriptor {
    /// The descriptor is the one registered under `name` with these parts.
    pub open spec fn describes(
        self,
        name: Seq<char>,
        shader_source: Seq<char>,
        bind_group_layouts: Seq<BindGroupLayoutId>,
        vertex_layouts: Seq<VertexBufferLayoutView>,
        surface_format: TextureFormat,
    ) -> bool {
        &&& self.layout_label@ == name + " Pipeline Layout"@
        &&& self.shader_label@ == name + " Shader"@
        &&& self.shader_source@ == shader_source
        &&& self.bind_group_layouts@ == bind_group_layouts
        &&& layout_views(self.vertex_layouts@) == vertex_layouts
        &&& self.color_format == surface_format
        &&& self.depth_format == Some(DEPTH_FORMAT)
    }
}

/// The cache as contracts see it.
pub struct PipelineCache {
    /// The handle registered under each name.
    pub names: Map<Seq<char>, usize>,
    /// The descriptors, by handle.
    pub pipelines: Seq<PipelineDescriptor>,
}

impl PipelineCache {
    /// The handle registered under `name`, if there is one.
    pub open spec fn lookup(self, name: Seq<char>) -> Option<usize> {
        if self.names.contains_key(name) {
            Some(self.names[name])
        } else {
            None
        }
    }

    /// Some name leads to the descriptor under `handle`.
    pub open spec fn is_named(self, handle: int) -> bool {
        exists|name: Seq<char>| #[trigger]
            self.names.contains_key(name) && self.names[name] == handle
    }

    /// Names and descriptors are matched one to one: every name leads to a
    /// descriptor, no two names lead to the same one, and every descriptor
    /// has a name.
    pub open spec fn well_formed(self) -> bool {
        &&& forall|name: Seq<char>| #[trigger]
            self.names.contains_key(name) ==> self.names[name] < self.pipelines.len()
        &&& forall|a: Seq<char>, b: Seq<char>|
            #![trigger self.names[a], self.names[b]]
            self.names.contains_key(a) && self.names.contains_key(b) && self.names[a]
                == self.names[b] ==> a == b
        &&& forall|handle: int| 0 <= handle < self.pipelines.len() ==> #[trigger] self.is_named(handle)
    }

    /// `self` is the cache and `handle` the result after registering a
    /// pipeline under `name` in the cache `before`: a known name gives its
    /// handle and changes nothing; a new name gets the next handle and a
    /// descriptor of its own.
    pub open spec fn registered(
        self,
        before: PipelineCache,
        handle: usize,
        name: Seq<char>,
        shader_source: Seq<char>,
        bind_group_layouts: Seq<BindGroupLayoutId>,
        vertex_layouts: Seq<VertexBufferLayoutView>,
        surface_format: TextureFormat,
    ) -> bool {
        match before.lookup(name) {
            Some(known) => handle == known && self == before,
            None => {
                &&& handle == before.pipelines.len()
                &&& self.names == before.names.insert(name, handle)
                &&& self.pipelines.len() == handle + 1
                &&& self.pipelines.take(handle as int) == before.pipelines
                &&& self.pipelines[handle as int].describes(
                    name,
                    shader_source,
                    bind_group_layouts,
                    vertex_layouts,
                    surface_format,
                )
            },
        }
    }
}

/// Keeps one pipeline for each name that was registered.
pub struct PipelineManager {
    pipelines: Vec<PipelineDescriptor>,
    pipeline_map: StringHashMap<usize>,
}

impl View for PipelineManager {
    type V = PipelineCache;

    closed spec fn view(&self) -> PipelineCache {
        PipelineCache { names: self.pipeline_map@, pipelines: self.pipelines@ }
    }
}

impl PipelineManager {
    #[verifier::type_invariant]
    spec fn valid(self) -> bool {
        self@.well_formed()
    }

    /// A manager without pipelines.
    pub fn new() -> (manager: PipelineManager)
        ensures
            manager@.names == Map::<Seq<char>, usize>::empty(),
            manager@.pipelines == Seq::<PipelineDescriptor>::empty(),
    {
        PipelineManager { pipelines: Vec::new(), pipeline_map: StringHashMap::new() }
    }

    /// Registers a pipeline under `name` and gives its handle. Where the name
    /// is known already, the handle is that of the first registration and the
    /// other arguments are dropped.
    pub fn add_pipeline(
        &mut self,
        name: String,
        shader_source: &str,
        bind_group_layouts: &[BindGroupLayoutId],
        vertex_layouts: &[VertexBufferLayout],
        surface_format: TextureFormat,
    ) -> (handle: usize)
        ensures
            final(self)@.registered(
                old(self)@,
                handle,
                name@,
                shader_source@,
                bind_group_layouts@,
                layout_views(vertex_layouts@),
                surface_format,
            ),
            final(self)@.lookup(name@) == Some(handle),
            final(self)@.well_formed(),
    {
        proof {
            use_type_invariant(&*self);
        }
        if let Some(index) = self.pipeline_map.get(name.as_str()) {
            return *index;
        }
        let mut layouts: Vec<VertexBufferLayout> = Vec::new();
        let mut i: usize = 0;
        while i < vertex_layouts.len()
            invariant
                i <= vertex_layouts.len(),
                layouts.len() == i,
                forall|j: int| 0 <= j < i ==> layouts[j]@ == vertex_layouts[j]@,
            decreases vertex_layouts.len() - i,
        {
            layouts.push(vertex_layouts[i].duplicate());
            i += 1;
        }
        assert(layout_views(layouts@) == layout_views(vertex_layouts@));
        let descriptor = PipelineDescriptor {
            layout_label: name.clone().concat(" Pipeline Layout"),
            shader_label: name.clone().concat(" Shader"),
            shader_source: shader_source.to_owned(),
            bind_group_layouts: slice_to_vec(bind_group_layouts),
            vertex_layouts: layouts,
            color_format: surface_format,
            depth_format: Some(DEPTH_FORMAT),
        };
        // The manager is taken apart while it changes and put together again
        // when names and descriptors match once more.
        let mut taken = PipelineManager::new();
        std::mem::swap(&mut taken, self);
        let PipelineManager { mut pipelines, mut pipeline_map } = taken;
        let index = pipelines.len();
        pipelines.push(descriptor);
        pipeline_map.insert(name, index);
        proof {
            let before = old(self)@;
            let after = PipelineCache { names: pipeline_map@, pipelines: pipelines@ };
            assert(after.pipelines.take(index as int) == before.pipelines);
            assert(after.names == before.names.insert(name@, index));
            assert forall|handle: int| 0 <= handle < after.pipelines.len() implies #[trigger]
                after.is_named(handle) by {
                if handle < index {
                    assert(before.is_named(handle));
                    let known = choose|known: Seq<char>| #[trigger]
                        before.names.contains_key(known) && before.names[known] == handle;
                    assert(after.names.contains_key(known) && after.names[known] == handle);
                } else {
                    assert(after.names.contains_key(name@) && after.names[name@] == handle);
                }
            }
        }
        *self = PipelineManager { pipelines, pipeline_map };
        index
    }

    /// Number of pipelines, which is the handle the next new name gets.
    pub fn len(&self) -> (count: usize)
        ensures
            count == self@.pipelines.len(),
    {
        self.pipelines.len()
    }

    /// The descriptor kept under `index`.
    pub fn get(&self, index: usize) -> (found: Option<&PipelineDescriptor>)
        ensures
            found == if index < self@.pipelines.len() {
                Some(&self@.pipelines[index as int])
            } else {
                None
            },
    {
        if index < self.pipelines.len() {
            Some(&self.pipelines[index])
        } else {
            None
        }
    }

    /// The handle of the pipeline registered under `name`.
    pub fn get_by_name(&self, name: &str) -> (found: Option<usize>)
        ensures
            found == self@.lookup(name@),
            found matches Some(handle) ==> handle < self@.pipelines.len(),
            self@.well_formed(),
    {
        proof {
            use_type_invariant(self);
        }
        match self.pipeline_map.get(name) {
            Some(index) => Some(*index),
            None => None,
        }
    }
}

impl Default for PipelineManager {
    fn default() -> (manager: PipelineManager)
        ensures
            manager@.names == Map::<Seq<char>, usize>::empty(),
            manager@.pipelines == Seq::<PipelineDescriptor>::empty(),
    {
        PipelineManager::new()
    }
}

/// Registration is idempotent. Registering under a name a second time, with
/// whatever shader, layouts and format, gives the handle of the first
/// registration and leaves the cache as the first registration left it.
pub proof fn lemma_registration_idempotent(
    start: PipelineCache,
    once: PipelineCache,
    twice: PipelineCache,
    first: usize,
    second: usize,
    name: Seq<char>,
    shader_source_a: Seq<char>,
    bind_group_layouts_a: Seq<BindGroupLayoutId>,
    vertex_layouts_a: Seq<VertexBufferLayoutView>,
    surface_format_a: TextureFormat,
    shader_source_b: Seq<char>,
    bind_group_layouts_b: Seq<BindGroupLayoutId>,
    vertex_layouts_b: Seq<VertexBufferLayoutView>,
    surface_format_b: TextureFormat,
)
    requires
        once.registered(
            start,
            first,
            name,
            shader_source_a,
            bind_group_layouts_a,
            vertex_layouts_a,
            surface_format_a,
        ),
        twice.registered(
            once,
            second,
            name,
            shader_source_b,
            bind_group_layouts_b,
            vertex_layouts_b,
            surface_format_b,
        ),
    ensures
        second == first,
        twice == once,
{
}

} // verus!
