//! The vertices of the quad on which the finished image is shown, and how a
//! render pipeline reads them.

use vstd::prelude::*;
use crate::scene::MINUS_ONE;
use crate::scene::ONE;

verus! {

/// The number of bytes in a vertex.
pub const VERTEX_STRIDE: u64 = 20;

/// One corner of the quad: a position and a texture coordinate, as float bit
/// patterns.
#[derive(Clone, Copy, Debug)]
pub struct Vertex {
    pub position: [u32; 3],
    pub uv: [u32; 2],
}

/// The shape of a vertex attribute.
#[derive(Clone, Copy, Debug, PartialEq, Eq, Structural)]
pub enum VertexFormat {
    /// Two floats.
    Float2,
    /// Three floats.
    Float3,
}

impl VertexFormat {
    /// The number of bytes that an attribute of the format takes.
    pub open spec fn spec_size(&self) -> u64 {
        match *self {
            VertexFormat::Float2 => 8,
            VertexFormat::Float3 => 12,
        }
    }

    /// The number of bytes that an attribute of the format takes.
    #[verifier::when_used_as_spec(spec_size)]
    pub fn size(&self) -> (bytes: u64)
        ensures
            bytes == self.spec_size(),
    {
        match self {
            VertexFormat::Float2 => 8,
            VertexFormat::Float3 => 12,
        }
    }
}

/// How often the pipeline steps to the next element of a vertex buffer.
#[derive(Clone, Copy, Debug, PartialEq, Eq, Structural)]
pub enum InputStepMode {
    Vertex,
    Instance,
}

/// One attribute of a vertex: where it starts, what it is, and where the
/// shader finds it.
#[derive(Clone, Copy, Debug, PartialEq, Eq, Structural)]
pub struct VertexAttribute {
    pub offset: u64,
    pub format: VertexFormat,
    pub shader_location: u32,
}

/// How a render pipeline reads a vertex buffer.
#[derive(Clone, Debug)]
pub struct VertexBufferLayout {
    pub array_stride: u64,
    pub step_mode: InputStepMode,
    pub attributes: Vec<VertexAttribute>,
}

impl VertexBufferLayout {
    /// Whether the attributes fill the stride without gap or overlap, in
    /// order, each at the shader location of its index.
    pub open spec fn packed(&self) -> bool {
        let a = self.attributes@;
        &&& a.len() > 0
        &&& a[0].offset == 0
        &&& forall|i: int|
            0 <= i < a.len() - 1 ==> (#[trigger] a[i + 1]).offset == a[i].offset + a[i].format.size()
        &&& a.last().offset + a.last().format.size() == self.array_stride
        &&& forall|i: int| 0 <= i < a.len() ==> (#[trigger] a[i]).shader_location == i
    }
}

impl Vertex {
    /// How the quad's vertex buffer is read: three floats of position at
    /// location 0, then two floats of texture coordinate at location 1.
    pub fn desc() -> (layout: VertexBufferLayout)
        ensures
            layout.array_stride == VERTEX_STRIDE,
            layout.step_mode == InputStepMode::Vertex,
            layout.attributes@ == seq![
                VertexAttribute { offset: 0, format: VertexFormat::Float3, shader_location: 0 },
                VertexAttribute { offset: 12, format: VertexFormat::Float2, shader_location: 1 },
            ],
            layout.packed(),
    {
        let attributes = vec![
            VertexAttribute { offset: 0, format: VertexFormat::Float3, shader_location: 0 },
            VertexAttribute { offset: 12, format: VertexFormat::Float2, shader_location: 1 },
        ];
        assert(attributes@ =~= seq![
            VertexAttribute { offset: 0, format: VertexFormat::Float3, shader_location: 0 },
            VertexAttribute { offset: 12, format: VertexFormat::Float2, shader_location: 1 },
        ]);
        VertexBufferLayout { array_stride: VERTEX_STRIDE, step_mode: InputStepMode::Vertex, attributes }
    }

    /// The corners of the quad, as `(x, y, u, v)`, two triangles of three
    /// corners each. The quad lies in the plane `z = 0`.
    pub open spec fn corners() -> Seq<(u32, u32, u32, u32)> {
        seq![
            (ONE, ONE, ONE, 0u32),
            (ONE, MINUS_ONE, ONE, ONE),
            (MINUS_ONE, MINUS_ONE, 0u32, ONE),
            (ONE, ONE, ONE, 0u32),
            (MINUS_ONE, MINUS_ONE, 0u32, ONE),
            (MINUS_ONE, ONE, 0u32, 0u32),
        ]
    }

    /// The six vertices of the quad that covers the whole view.
    pub fn quad() -> (vertices: Vec<Vertex>)
        ensures
            vertices@.len() == 6,
            forall|i: int|
                0 <= i < 6 ==> {
                    let v = #[trigger] vertices@[i];
                    let c = Vertex::corners()[i];
                    v.position@ == seq![c.0, c.1, 0u32] && v.uv@ == seq![c.2, c.3]
                },
    {
        let vertices = vec![
            Vertex { position: [ONE, ONE, 0], uv: [ONE, 0] },
            Vertex { position: [ONE, MINUS_ONE, 0], uv: [ONE, ONE] },
            Vertex { position: [MINUS_ONE, MINUS_ONE, 0], uv: [0, ONE] },
            Vertex { position: [ONE, ONE, 0], uv: [ONE, 0] },
            Vertex { position: [MINUS_ONE, MINUS_ONE, 0], uv: [0, ONE] },
            Vertex { position: [MINUS_ONE, ONE, 0], uv: [0, 0] },
        ];
        assert forall|i: int| 0 <= i < 6 implies {
            let v = #[trigger] vertices@[i];
            let c = Vertex::corners()[i];
            v.position@ == seq![c.0, c.1, 0u32] && v.uv@ == seq![c.2, c.3]
        } by {
            let v = vertices@[i];
            let c = Vertex::corners()[i];
            assert(v.position@ =~= seq![c.0, c.1, 0u32]);
            assert(v.uv@ =~= seq![c.2, c.3]);
        }
        vertices
    }
}

} // verus!
