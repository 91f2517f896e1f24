//! The unit quad that a heatmap is drawn on, and the layout of its vertices
//! in a GPU buffer.

use vstd::prelude::*;

verus! {

/// A corner of the quad. The position is in units of one half, so that the
/// corners of the centered unit square are at `(±1, ±1)`; the texture
/// coordinate is in whole units.
#[derive(Clone, Copy, Debug, PartialEq, Eq, Structural)]
pub struct Vertex {
    pub half_x: i8,
    pub half_y: i8,
    pub tex_u: u8,
    pub tex_v: u8,
}

/// The four corners of the centered unit square, counter-clockwise from the
/// lower left, each with the texture corner it shows.
pub open spec fn quad_vertices() -> Seq<Vertex> {
    seq![
        Vertex { half_x: -1i8, half_y: -1i8, tex_u: 0, tex_v: 0 },
        Vertex { half_x: 1, half_y: -1i8, tex_u: 1, tex_v: 0 },
        Vertex { half_x: 1, half_y: 1, tex_u: 1, tex_v: 1 },
        Vertex { half_x: -1i8, half_y: 1, tex_u: 0, tex_v: 1 },
    ]
}

/// The two counter-clockwise triangles of the quad.
pub open spec fn quad_indices() -> Seq<u16> {
    seq![0u16, 1, 2, 0, 2, 3]
}

/// The geometry of a heatmap: its vertices, and the triangle list that
/// indexes them.
pub struct Mesh {
    pub vertices: Vec<Vertex>,
    pub indices: Vec<u16>,
    pub num_indices: u32,
}

impl Mesh {
    /// The index count matches the index list, and every index names a vertex.
    pub open spec fn wf(&self) -> bool {
        &&& self.num_indices == self.indices@.len()
        &&& forall|i: int|
            0 <= i < self.indices@.len() ==> #[trigger] self.indices@[i] < self.vertices@.len()
    }

    /// The unit quad: four vertices and six indices, whatever the data that
    /// is drawn on it.
    pub fn quad() -> (m: Mesh)
        ensures
            m.wf(),
            m.vertices@ == quad_vertices(),
            m.indices@ == quad_indices(),
            m.num_indices == 6,
    {
        let vertices = vec![
            Vertex { half_x: -1, half_y: -1, tex_u: 0, tex_v: 0 },
            Vertex { half_x: 1, half_y: -1, tex_u: 1, tex_v: 0 },
            Vertex { half_x: 1, half_y: 1, tex_u: 1, tex_v: 1 },
            Vertex { half_x: -1, half_y: 1, tex_u: 0, tex_v: 1 },
        ];
        let indices: Vec<u16> = vec![0, 1, 2, 0, 2, 3];
        assert(vertices@ =~= quad_vertices());
        assert(indices@ =~= quad_indices());
        Mesh { vertices, indices, num_indices: 6 }
    }
}

/// The format of one vertex attribute as the GPU reads it.
#[derive(Clone, Copy, Debug, PartialEq, Eq, Structural)]
pub enum VertexFormat {
    /// One 32-bit float.
    Float32,
    /// Two 32-bit floats.
    Float32x2,
}

/// The size in bytes of an attribute of format `f`.
pub open spec fn format_size(f: VertexFormat) -> nat {
    match f {
        VertexFormat::Float32 => 4,
        VertexFormat::Float32x2 => 8,
    }
}

/// The size in bytes of attributes of formats `s`, packed one after another.
pub open spec fn formats_size(s: Seq<VertexFormat>) -> nat
    decreases s.len(),
{
    if s.len() == 0 {
        0
    } else {
        formats_size(s.drop_last()) + format_size(s.last())
    }
}

/// One attribute of a vertex buffer layout.
#[derive(Clone, Copy, Debug, PartialEq, Eq, Structural)]
pub struct VertexAttribute {
    pub format: VertexFormat,
    /// Bytes from the start of the vertex to the attribute.
    pub offset: u64,
    pub shader_location: u32,
}

/// How the vertices of a buffer are laid out: the bytes from one vertex to
/// the next, and the attributes of each.
pub struct VertexLayout {
    pub array_stride: u64,
    pub attributes: Vec<VertexAttribute>,
}

/// The attribute at position `i` of a packed layout of formats `s`.
pub open spec fn packed_attribute(s: Seq<VertexFormat>, i: int) -> VertexAttribute {
    VertexAttribute {
        format: s[i],
        offset: formats_size(s.take(i)) as u64,
        shader_location: i as u32,
    }
}

fn format_size_exec(f: VertexFormat) -> (n: u64)
    ensures
        n == format_size(f),
{
    match f {
        VertexFormat::Float32 => 4,
        VertexFormat::Float32x2 => 8,
    }
}

/// The layout of vertices made of attributes of formats `formats`, packed in
/// order: attribute `i` is read at shader location `i`, right after
/// attribute `i - 1`, and the stride is the size of them all.
pub fn vertex_layout(formats: &[VertexFormat]) -> (l: VertexLayout)
    requires
        formats@.len() <= u32::MAX,
    ensures
        l.array_stride == formats_size(formats@),
        l.attributes@.len() == formats@.len(),
        forall|i: int|
            0 <= i < formats@.len() ==> #[trigger] l.attributes@[i] == packed_attribute(
                formats@,
                i,
            ),
{
    let mut attributes: Vec<VertexAttribute> = Vec::new();
    let mut offset: u64 = 0;
    let mut i: usize = 0;
    assert(formats@.take(0) =~= Seq::<VertexFormat>::empty());
    while i < formats.len()
        invariant
            i <= formats@.len(),
            formats@.len() <= u32::MAX,
            offset == formats_size(formats@.take(i as int)),
            offset <= 8 * i,
            attributes@.len() == i,
            forall|j: int|
                0 <= j < i ==> #[trigger] attributes@[j] == packed_attribute(formats@, j),
        decreases formats@.len() - i,
    {
        let f = formats[i];
        attributes.push(VertexAttribute { format: f, offset, shader_location: i as u32 });
        assert(formats@.take(i + 1).drop_last() =~= formats@.take(i as int));
        offset = offset + format_size_exec(f);
        i = i + 1;
    }
    assert(formats@.take(i as int) =~= formats@);
    VertexLayout { array_stride: offset, attributes }
}

impl Vertex {
    /// The layout of a buffer of heatmap vertices: a 16-byte stride, the
    /// position at offset 0 and location 0, the texture coordinate at offset 8
    /// and location 1.
    pub fn desc() -> (l: VertexLayout)
        ensures
            l.array_stride == 16,
            l.attributes@ == seq![
                VertexAttribute { format: VertexFormat::Float32x2, offset: 0, shader_location: 0 },
                VertexAttribute { format: VertexFormat::Float32x2, offset: 8, shader_location: 1 },
            ],
    {
        let formats = [VertexFormat::Float32x2, VertexFormat::Float32x2];
        let l = vertex_layout(&formats);
        proof {
            let s = formats@;
            assert(s.take(0).len() == 0);
            assert(s.take(1).drop_last() =~= s.take(0));
            assert(s.take(2) =~= s);
            assert(s.drop_last() =~= s.take(1));
            reveal_with_fuel(formats_size, 3);
            let a0 = packed_attribute(s, 0);
            let a1 = packed_attribute(s, 1);
            assert(l.attributes@[0] == a0);
            assert(l.attributes@[1] == a1);
        }
        assert(l.attributes@ =~= seq![
            VertexAttribute { format: VertexFormat::Float32x2, offset: 0, shader_location: 0 },
            VertexAttribute { format: VertexFormat::Float32x2, offset: 8, shader_location: 1 },
        ]);
        l
    }
}

} // verus!
