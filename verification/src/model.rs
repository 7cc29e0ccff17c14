use vstd::prelude::*;
use crate::scalar::Scalar;
use crate::matrix::{Vec2, Vec3};
use crate::encoding::{words_le, words_be};
use crate::texture::Texture;

verus! {

/// What one vertex attribute holds.
#[derive(Clone, Copy, Debug, PartialEq, Eq, Structural)]
pub enum VertexFormat {
    Float32x2,
    Float32x3,
    Float32x4,
}

impl VertexFormat {
    /// Bytes that one attribute of this format takes.
    pub open spec fn size_spec(self) -> int {
        match self {
            VertexFormat::Float32x2 => 8,
            VertexFormat::Float32x3 => 12,
            VertexFormat::Float32x4 => 16,
        }
    }

    pub fn size(&self) -> (n: u64)
        ensures
            n == self.size_spec(),
    {
        match self {
            VertexFormat::Float32x2 => 8,
            VertexFormat::Float32x3 => 12,
            VertexFormat::Float32x4 => 16,
        }
    }
}

/// Whether a vertex buffer advances once a vertex or once an instance.
#[derive(Clone, Copy, Debug, PartialEq, Eq, Structural)]
pub enum VertexStepMode {
    Vertex,
    Instance,
}

#[derive(Clone, Copy, Debug, PartialEq, Eq, Structural)]
pub struct VertexAttribute {
    pub format: VertexFormat,
    pub offset: u64,
    pub shader_location: u32,
}

/// How the bytes of one vertex buffer are cut into attributes.
#[derive(Debug)]
pub struct VertexBufferLayout {
    pub array_stride: u64,
    pub step_mode: VertexStepMode,
    pub attributes: Vec<VertexAttribute>,
}

/// Bytes taken by the first `n` of `formats`, laid end to end.
pub open spec fn bytes_before(formats: Seq<VertexFormat>, n: int) -> int
    decreases n,
{
    if n <= 0 {
        0
    } else {
        bytes_before(formats, n - 1) + formats[n - 1].size_spec()
    }
}

/// The `i`-th attribute when `formats` are laid end to end and numbered
/// from `first_location`.
pub open spec fn packed_attribute(
    formats: Seq<VertexFormat>,
    first_location: u32,
    i: int,
) -> VertexAttribute {
    VertexAttribute {
        format: formats[i],
        offset: bytes_before(formats, i) as u64,
        shader_location: (first_location + i) as u32,
    }
}

impl VertexBufferLayout {
    /// The attributes are `formats` in order, each starting where the one
    /// before ends, at consecutive shader locations from `first_location`
    /// on, and the stride is what they take together.
    pub open spec fn is_packed(self, formats: Seq<VertexFormat>, first_location: u32) -> bool {
        &&& self.array_stride == bytes_before(formats, formats.len() as int)
        &&& self.attributes@ == Seq::new(
            formats.len(),
            |i: int| packed_attribute(formats, first_location, i),
        )
    }

    /// Lays `formats` end to end without padding.
    pub fn packed(
        step_mode: VertexStepMode,
        first_location: u32,
        formats: &Vec<VertexFormat>,
    ) -> (layout: VertexBufferLayout)
        requires
            first_location + formats@.len() <= u32::MAX,
        ensures
            layout.step_mode == step_mode,
            layout.is_packed(formats@, first_location),
    {
        let mut attributes: Vec<VertexAttribute> = Vec::new();
        let mut offset: u64 = 0;
        let mut i: usize = 0;
        while i < formats.len()
            invariant
                0 <= i <= formats@.len(),
                first_location + formats@.len() <= u32::MAX,
                offset == bytes_before(formats@, i as int),
                offset <= 16 * i,
                attributes@ == Seq::new(
                    i as nat,
                    |k: int| packed_attribute(formats@, first_location, k),
                ),
            decreases formats@.len() - i,
        {
            let format = formats[i];
            attributes.push(
                VertexAttribute {
                    format,
                    offset,
                    shader_location: first_location + (i as u32),
                },
            );
            offset = offset + format.size();
            i += 1;
            assert(attributes@ =~= Seq::new(
                i as nat,
                |k: int| packed_attribute(formats@, first_location, k),
            ));
        }
        VertexBufferLayout { array_stride: offset, step_mode, attributes }
    }
}

/// A vertex type that knows the layout of its own buffer.
pub trait Vertex {
    fn desc() -> VertexBufferLayout;
}

/// A vertex of a textured mesh: a position and a texture coordinate.
#[derive(Clone, Copy, Debug, PartialEq, Eq, Structural)]
pub struct ModelVertex {
    pub pos: Vec3,
    pub tex_coords: Vec2,
}

/// Bytes of one `ModelVertex` in a vertex buffer.
pub const MODEL_VERTEX_BYTES: u64 = 20;

impl ModelVertex {
    /// The vertex with these bits for position and texture coordinate.
    pub fn from_bits(x: u32, y: u32, z: u32, u: u32, v: u32) -> (vertex: ModelVertex)
        ensures
            vertex == ModelVertex::of_bits(x, y, z, u, v),
    {
        ModelVertex {
            pos: Vec3 {
                x: Scalar::from_bits(x),
                y: Scalar::from_bits(y),
                z: Scalar::from_bits(z),
            },
            tex_coords: Vec2 { x: Scalar::from_bits(u), y: Scalar::from_bits(v) },
        }
    }

    pub open spec fn of_bits(x: u32, y: u32, z: u32, u: u32, v: u32) -> ModelVertex {
        ModelVertex {
            pos: Vec3 { x: Scalar { bits: x }, y: Scalar { bits: y }, z: Scalar { bits: z } },
            tex_coords: Vec2 { x: Scalar { bits: u }, y: Scalar { bits: v } },
        }
    }

    /// The five numbers of the vertex: position, then texture coordinate.
    pub open spec fn words(self) -> Seq<u32> {
        seq![
            self.pos.x.bits,
            self.pos.y.bits,
            self.pos.z.bits,
            self.tex_coords.x.bits,
            self.tex_coords.y.bits,
        ]
    }
}

impl Vertex for ModelVertex {
    /// Three numbers of position at location 0, then two of texture
    /// coordinate at location 1, twenty bytes a vertex.
    fn desc() -> (layout: VertexBufferLayout)
        ensures
            layout.array_stride == MODEL_VERTEX_BYTES,
            layout.step_mode == VertexStepMode::Vertex,
            layout.attributes@ == seq![
                VertexAttribute { format: VertexFormat::Float32x3, offset: 0, shader_location: 0 },
                VertexAttribute { format: VertexFormat::Float32x2, offset: 12, shader_location: 1 },
            ],
    {
        let mut formats: Vec<VertexFormat> = Vec::new();
        formats.push(VertexFormat::Float32x3);
        formats.push(VertexFormat::Float32x2);
        let layout = VertexBufferLayout::packed(VertexStepMode::Vertex, 0, &formats);
        proof {
            reveal_with_fuel(bytes_before, 3);
            assert(layout.attributes@ =~= seq![
                VertexAttribute { format: VertexFormat::Float32x3, offset: 0, shader_location: 0 },
                VertexAttribute { format: VertexFormat::Float32x2, offset: 12, shader_location: 1 },
            ]);
        }
        layout
    }
}

/// The numbers of all vertices in order, five to a vertex.
pub open spec fn vertex_words(vs: Seq<ModelVertex>) -> Seq<u32> {
    Seq::new(5 * vs.len(), |i: int| vs[i / 5].words()[i % 5])
}

/// `bytes` holds `ws` word after word as the words lie in memory: every
/// word least significant byte first, or every word most significant byte
/// first, whichever the machine does.
pub open spec fn is_memory_image(bytes: Seq<u8>, ws: Seq<u32>) -> bool {
    bytes == words_le(ws) || bytes == words_be(ws)
}

/// `bytemuck::cast_slice` from 32-bit words to bytes, copied out. The cast
/// cannot fail in this direction: a byte needs no alignment and four bytes
/// make every word. It hands back the words' own memory, so the bytes are
/// the words in order, each in the byte order of the machine.
#[verifier::external_body]
fn memory_bytes(ws: &Vec<u32>) -> (out: Vec<u8>)
    ensures
        is_memory_image(out@, ws@),
{
    bytemuck::cast_slice::<u32, u8>(ws.as_slice()).to_vec()
}

/// The numbers of all vertices in order, five to a vertex.
pub fn flatten_vertices(vs: &Vec<ModelVertex>) -> (out: Vec<u32>)
    ensures
        out@ == vertex_words(vs@),
{
    let mut out: Vec<u32> = Vec::new();
    let mut i: usize = 0;
    while i < vs.len()
        invariant
            0 <= i <= vs@.len(),
            out@ == vertex_words(vs@.take(i as int)),
        decreases vs@.len() - i,
    {
        let v = vs[i];
        let ghost before = out@;
        out.push(v.pos.x.bits);
        out.push(v.pos.y.bits);
        out.push(v.pos.z.bits);
        out.push(v.tex_coords.x.bits);
        out.push(v.tex_coords.y.bits);
        proof {
            let prev = vs@.take(i as int);
            let next = vs@.take(i as int + 1);
            assert forall|k: int| 0 <= k < 5 * (i + 1) implies out@[k] == vertex_words(next)[k] by {
                if k < 5 * i {
                    assert(out@[k] == before[k]);
                    assert(prev[k / 5] == next[k / 5]);
                } else {
                    assert(k / 5 == i as int);
                    assert(next[i as int] == v);
                }
            }
            assert(out@ =~= vertex_words(next));
        }
        i += 1;
    }
    assert(vs@.take(vs@.len() as int) =~= vs@);
    out
}

/// Geometry of one mesh as it goes to the device.
#[derive(Debug)]
pub struct Mesh {
    pub name: String,
    /// Contents of the vertex buffer.
    pub vertex_buffer: Vec<u8>,
    /// Contents of the index buffer, 32 bits an index.
    pub index_buffer: Vec<u8>,
    /// Number of indices to draw.
    pub num_elements: u32,
    pub materials: usize,
}

impl Mesh {
    /// The mesh holds exactly these vertices and indices.
    pub open spec fn holds(self, vertices: Seq<ModelVertex>, indices: Seq<u32>) -> bool {
        &&& is_memory_image(self.vertex_buffer@, vertex_words(vertices))
        &&& is_memory_image(self.index_buffer@, indices)
        &&& self.num_elements == indices.len()
    }

    /// Packs vertices and indices into the contents of their buffers.
    pub fn new(
        name: &str,
        vertices: &Vec<ModelVertex>,
        indices: &Vec<u32>,
        materials: usize,
    ) -> (mesh: Mesh)
        requires
            indices@.len() <= u32::MAX,
        ensures
            mesh.name@ == name@,
            mesh.holds(vertices@, indices@),
            mesh.vertex_buffer@.len() == MODEL_VERTEX_BYTES * vertices@.len(),
            mesh.index_buffer@.len() == 4 * indices@.len(),
            mesh.materials == materials,
    {
        let words = flatten_vertices(vertices);
        let vertex_buffer = memory_bytes(&words);
        let index_buffer = memory_bytes(indices);
        Mesh {
            name: name.to_owned(),
            vertex_buffer,
            index_buffer,
            num_elements: indices.len() as u32,
            materials,
        }
    }
}

/// What a mesh is painted with.
#[derive(Debug)]
pub struct Material {
    pub name: String,
    pub diffuse_texture: Texture,
}

/// Meshes and the materials they are painted with.
#[derive(Debug)]
pub struct Model {
    pub meshes: Vec<Mesh>,
    pub materials: Vec<Material>,
}

} // verus!
