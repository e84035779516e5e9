//! Meshes, materials and models as the draw strategies see them, and the
//! description of a vertex buffer's layout.

use crate::gpu::{BindGroupId, BufferId};
use vstd::prelude::*;

verus! {

/// A named bundle of texture and sampler resources, bound as one group.
#[derive(Clone, Debug, PartialEq, Eq)]
pub struct Material {
    pub name: String,
    pub bind_group: BindGroupId,
}

/// Vertex and index data of one mesh, and the material it is drawn with.
#[derive(Clone, Debug, PartialEq, Eq)]
pub struct Mesh {
    pub name: String,
    pub vertex_buffer: BufferId,
    pub index_buffer: BufferId,
    /// Number of indices in the index buffer.
    pub num_elements: u32,
    /// Position of the mesh's material in the materials of its model.
    pub material: usize,
}

/// Meshes and the materials they refer to, both in storage order. Every mesh
/// of a model refers to one of the model's materials, and a model does not
/// change once it is made.
#[derive(Debug, PartialEq, Eq)]
pub struct Model {
    meshes: Vec<Mesh>,
    materials: Vec<Material>,
}

/// A model as contracts see it.
pub struct ModelView {
    pub meshes: Seq<Mesh>,
    pub materials: Seq<Material>,
}

impl ModelView {
    /// The material index of mesh `i` names a material of the model.
    pub open spec fn resolves(self, i: int) -> bool {
        self.meshes[i].material < self.materials.len()
    }

    /// Every mesh among the first `n` refers to a material of the model.
    pub open spec fn resolves_before(self, n: int) -> bool {
        forall|i: int| 0 <= i < n && i < self.meshes.len() ==> #[trigger] self.resolves(i)
    }

    /// Every mesh refers to a material of the model.
    pub open spec fn materials_resolve(self) -> bool {
        self.resolves_before(self.meshes.len() as int)
    }

    /// `i` is the first mesh whose material index is out of range.
    pub open spec fn first_unresolved(self, i: int) -> bool {
        &&& 0 <= i < self.meshes.len()
        &&& !self.resolves(i)
        &&& self.resolves_before(i)
    }
}

impl View for Model {
    type V = ModelView;

    closed spec fn view(&self) -> ModelView {
        ModelView { meshes: self.meshes@, materials: self.materials@ }
    }
}

/// Why meshes and materials do not make a model.
#[derive(Clone, Copy, Debug, PartialEq, Eq, Structural)]
pub enum ModelError {
    /// Mesh `mesh` refers to material `material`, which is not among the
    /// materials.
    MaterialOutOfRange { mesh: usize, material: usize },
}

impl Model {
    #[verifier::type_invariant]
    spec fn valid(self) -> bool {
        self@.materials_resolve()
    }

    /// The model of these meshes and materials. Fails where a mesh refers to
    /// a material that is not there, and names the first such mesh.
    pub fn new(meshes: Vec<Mesh>, materials: Vec<Material>) -> (made: Result<Model, ModelError>)
        ensures
            ({
                let parts = ModelView { meshes: meshes@, materials: materials@ };
                match made {
                    Ok(model) => model@ == parts && parts.materials_resolve(),
                    Err(ModelError::MaterialOutOfRange { mesh, material }) => {
                        &&& parts.first_unresolved(mesh as int)
                        &&& material == meshes[mesh as int].material
                    },
                }
            }),
    {
        let ghost parts = ModelView { meshes: meshes@, materials: materials@ };
        let mut i: usize = 0;
        while i < meshes.len()
            invariant
                i <= meshes.len(),
                parts == (ModelView { meshes: meshes@, materials: materials@ }),
                parts.resolves_before(i as int),
            decreases meshes.len() - i,
        {
            if meshes[i].material >= materials.len() {
                return Err(
                    ModelError::MaterialOutOfRange { mesh: i, material: meshes[i].material },
                );
            }
            i += 1;
        }
        Ok(Model { meshes, materials })
    }

    /// The meshes, in storage order.
    pub fn meshes(&self) -> (meshes: &Vec<Mesh>)
        ensures
            meshes@ == self@.meshes,
            self@.materials_resolve(),
    {
        proof {
            use_type_invariant(self);
        }
        &self.meshes
    }

    /// The materials, in storage order.
    pub fn materials(&self) -> (materials: &Vec<Material>)
        ensures
            materials@ == self@.materials,
            self@.materials_resolve(),
    {
        proof {
            use_type_invariant(self);
        }
        &self.materials
    }
}

/// Type and size of one vertex attribute.
#[derive(Clone, Copy, Debug, PartialEq, Eq, Hash, Structural)]
pub enum VertexFormat {
    /// Two 32-bit floats.
    Float32x2,
    /// Three 32-bit floats.
    Float32x3,
    /// Four 32-bit floats.
    Float32x4,
}

impl VertexFormat {
    /// Bytes one attribute of this format takes.
    pub open spec fn spec_size(self) -> u64 {
        match self {
            VertexFormat::Float32x2 => 8,
            VertexFormat::Float32x3 => 12,
            VertexFormat::Float32x4 => 16,
        }
    }

    #[verifier::when_used_as_spec(spec_size)]
    pub fn size(self) -> (bytes: u64)
        ensures
            bytes == self.spec_size(),
    {
        match self {
            VertexFormat::Float32x2 => 8,
            VertexFormat::Float32x3 => 12,
            VertexFormat::Float32x4 => 16,
        }
    }
}

/// Whether a vertex buffer advances per vertex or per instance.
#[derive(Clone, Copy, Debug, PartialEq, Eq, Hash, Structural)]
pub enum VertexStepMode {
    Vertex,
    Instance,
}

/// One input of the vertex shader and where it lies in an element of the
/// buffer.
#[derive(Clone, Copy, Debug, PartialEq, Eq, Hash, Structural)]
pub struct VertexAttribute {
    pub format: VertexFormat,
    /// Byte offset from the start of the element.
    pub offset: u64,
    /// Location of the input in the shader.
    pub shader_location: u32,
}

/// How the elements of one vertex buffer are laid out.
#[derive(Clone, Debug, PartialEq, Eq)]
pub struct VertexBufferLayout {
    /// Bytes from one element to the next.
    pub array_stride: u64,
    pub step_mode: VertexStepMode,
    pub attributes: Vec<VertexAttribute>,
}

/// A vertex buffer layout as contracts see it.
pub struct VertexBufferLayoutView {
    pub array_stride: u64,
    pub step_mode: VertexStepMode,
    pub attributes: Seq<VertexAttribute>,
}

impl View for VertexBufferLayout {
    type V = VertexBufferLayoutView;

    open spec fn view(&self) -> VertexBufferLayoutView {
        VertexBufferLayoutView {
            array_stride: self.array_stride,
            step_mode: self.step_mode,
            attributes: self.attributes@,
        }
    }
}

impl VertexBufferLayoutView {
    /// The attributes follow one another without gaps from offset 0 to the
    /// stride, at shader locations that count up by one.
    pub open spec fn is_packed(self) -> bool {
        &&& self.attributes.len() > 0
        &&& self.attributes[0].offset == 0
        &&& forall|i: int|
            0 < i < self.attributes.len() ==> {
                &&& (#[trigger] self.attributes[i]).offset == self.attributes[i - 1].offset
                    + self.attributes[i - 1].format.spec_size()
                &&& self.attributes[i].shader_location == self.attributes[i - 1].shader_location
                    + 1
            }
        &&& self.attributes.last().offset + self.attributes.last().format.spec_size()
            == self.array_stride
    }
}

/// The layouts as contracts see them, in order.
pub open spec fn layout_views(layouts: Seq<VertexBufferLayout>) -> Seq<VertexBufferLayoutView> {
    Seq::new(layouts.len(), |i: int| layouts[i]@)
}

impl VertexBufferLayout {
    /// A layout that describes the same buffer.
    pub fn duplicate(&self) -> (copy: VertexBufferLayout)
        ensures
            copy@ == self@,
    {
        let mut attributes: Vec<VertexAttribute> = Vec::new();
        let mut i: usize = 0;
        while i < self.attributes.len()
            invariant
                i <= self.attributes.len(),
                attributes@ == self.attributes@.take(i as int),
            decreases self.attributes.len() - i,
        {
            attributes.push(self.attributes[i]);
            i += 1;
        }
        assert(self.attributes@.take(i as int) == self.attributes@);
        VertexBufferLayout {
            array_stride: self.array_stride,
            step_mode: self.step_mode,
            attributes,
        }
    }
}

/// A type whose values are the elements of a vertex buffer.
pub trait Vertex {
    /// The layout of a buffer of such values.
    fn desc() -> VertexBufferLayout;
}

} // verus!
