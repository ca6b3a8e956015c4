use vstd::prelude::*;

verus! {

/// The bytes of one single-precision float, in the machine's byte order, as
/// the graphics driver reads them.
pub type F32Bytes = [u8; 4];

/// A vertex that the graphics driver reads as `stride()` packed bytes.
pub trait Vertex: Sized + Copy {
    /// The bytes of this vertex as the driver reads them.
    spec fn spec_bytes(&self) -> Seq<u8>;

    /// The number of bytes of one vertex.
    spec fn spec_stride() -> nat;

    /// Every vertex has `spec_stride()` bytes, and that is more than none.
    proof fn lemma_bytes_len(v: Self)
        ensures
            v.spec_bytes().len() == Self::spec_stride(),
            Self::spec_stride() > 0,
    ;

    /// The number of bytes of one vertex.
    fn stride() -> (s: usize)
        ensures
            s == Self::spec_stride(),
            s > 0,
    ;

    /// The vertex whose bytes are `bytes`, which hold exactly one vertex.
    fn from_bytes(bytes: &[u8]) -> (v: Self)
        requires
            bytes@.len() == Self::spec_stride(),
        ensures
            v.spec_bytes() == bytes@,
    ;

    /// The bytes of this vertex.
    fn to_bytes(&self) -> (bytes: Vec<u8>)
        ensures
            bytes@ == self.spec_bytes(),
    ;

    /// Cuts `buffer` into consecutive vertices of `stride()` bytes each; bytes
    /// after the last whole vertex are left over.
    fn from_byte_buffer(buffer: &[u8]) -> (vertices: Vec<Self>)
        ensures
            vertices@.len() == buffer@.len() / Self::spec_stride(),
            forall|i: int|
                0 <= i < vertices@.len() ==> (#[trigger] vertices@[i]).spec_bytes()
                    == buffer@.subrange(i * Self::spec_stride(), (i + 1) * Self::spec_stride()),
    {
        let stride = Self::stride();
        let len = buffer.len();
        let vertex_count = len / stride;
        let mut vertices: Vec<Self> = Vec::with_capacity(vertex_count);
        for i in 0..vertex_count
            invariant
                stride == Self::spec_stride(),
                stride > 0,
                len == buffer@.len(),
                vertex_count == buffer@.len() as int / (stride as int),
                vertices@.len() == i,
                forall|j: int|
                    0 <= j < i ==> (#[trigger] vertices@[j]).spec_bytes()
                        == buffer@.subrange(j * stride, (j + 1) * stride),
        {
            assert((i + 1) * stride <= buffer@.len()) by (nonlinear_arith)
                requires
                    i < vertex_count,
                    vertex_count == buffer@.len() as int / (stride as int),
                    stride > 0,
            {
                vstd::arithmetic::div_mod::lemma_fundamental_div_mod(buffer@.len() as int, stride as int);
            }
            assert((i + 1) * stride == i * stride + stride) by (nonlinear_arith);
            let chunk = vstd::slice::slice_subrange(buffer, i * stride, (i + 1) * stride);
            vertices.push(Self::from_bytes(chunk));
        }
        vertices
    }
}

/// Whether a buffer of `len` bytes holds whole vertices of type `V` only,
/// with no bytes left over.
pub fn is_whole_vertex_buffer<V: Vertex>(len: usize) -> (whole: bool)
    ensures
        whole == (len as int % V::spec_stride() as int == 0),
{
    len % V::stride() == 0
}

/// The bytes of the vertices `vertices`, one after the other.
pub open spec fn concat_bytes<V: Vertex>(vertices: Seq<V>) -> Seq<u8>
    decreases vertices.len(),
{
    if vertices.len() == 0 {
        Seq::empty()
    } else {
        concat_bytes(vertices.drop_last()) + vertices.last().spec_bytes()
    }
}

/// A vertex of two floats.
#[derive(Clone, Copy)]
pub struct TwoPoint {
    data: [F32Bytes; 2],
}

impl Vertex for TwoPoint {
    closed spec fn spec_bytes(&self) -> Seq<u8> {
        self.data[0]@ + self.data[1]@
    }

    open spec fn spec_stride() -> nat {
        8
    }

    proof fn lemma_bytes_len(v: Self) {
    }

    fn stride() -> (s: usize) {
        8
    }

    fn from_bytes(bytes: &[u8]) -> (v: Self) {
        let data: [F32Bytes; 2] = [
            [bytes[0], bytes[1], bytes[2], bytes[3]],
            [bytes[4], bytes[5], bytes[6], bytes[7]],
        ];
        let v = TwoPoint { data };
        assert(v.spec_bytes() =~= bytes@);
        v
    }

    fn to_bytes(&self) -> (bytes: Vec<u8>) {
        let d = self.data;
        let bytes = vec![d[0][0], d[0][1], d[0][2], d[0][3], d[1][0], d[1][1], d[1][2], d[1][3]];
        assert(bytes@ =~= self.spec_bytes());
        bytes
    }
}

/// A vertex of three floats, such as a position in space.
#[derive(Clone, Copy)]
pub struct ThreePoint {
    pub data: [F32Bytes; 3],
}

impl Vertex for ThreePoint {
    open spec fn spec_bytes(&self) -> Seq<u8> {
        self.data[0]@ + self.data[1]@ + self.data[2]@
    }

    open spec fn spec_stride() -> nat {
        12
    }

    proof fn lemma_bytes_len(v: Self) {
    }

    fn stride() -> (s: usize) {
        12
    }

    fn from_bytes(bytes: &[u8]) -> (v: Self)
        ensures
            v.data[0]@ == bytes@.subrange(0, 4),
            v.data[1]@ == bytes@.subrange(4, 8),
            v.data[2]@ == bytes@.subrange(8, 12),
    {
        let data: [F32Bytes; 3] = [
            [bytes[0], bytes[1], bytes[2], bytes[3]],
            [bytes[4], bytes[5], bytes[6], bytes[7]],
            [bytes[8], bytes[9], bytes[10], bytes[11]],
        ];
        let v = ThreePoint { data };
        assert(v.spec_bytes() =~= bytes@);
        v
    }

    fn to_bytes(&self) -> (bytes: Vec<u8>)
        ensures
            bytes@ == self.data[0]@ + self.data[1]@ + self.data[2]@,
    {
        let d = self.data;
        let bytes = vec![
            d[0][0], d[0][1], d[0][2], d[0][3],
            d[1][0], d[1][1], d[1][2], d[1][3],
            d[2][0], d[2][1], d[2][2], d[2][3],
        ];
        assert(bytes@ =~= self.spec_bytes());
        bytes
    }
}

impl ThreePoint {
    /// Makes points from a buffer of floats whose length is a multiple of
    /// three: point `i` takes the floats at `i`, `i + 1` and `i + 2`. The
    /// windows overlap (point 1 starts at the second float, not the fourth),
    /// as this function has always read them.
    pub fn from_float_buffer(buffer: &[F32Bytes]) -> (points: Vec<ThreePoint>)
        requires
            buffer@.len() % 3 == 0,
        ensures
            points@.len() == buffer@.len() / 3,
            forall|i: int|
                0 <= i < points@.len() ==> (#[trigger] points@[i]).data@
                    == seq![buffer@[i], buffer@[i + 1], buffer@[i + 2]],
    {
        let count = buffer.len() / 3;
        let mut points: Vec<ThreePoint> = Vec::with_capacity(count);
        for i in 0..count
            invariant
                count == buffer@.len() / 3,
                buffer@.len() % 3 == 0,
                points@.len() == i,
                forall|j: int|
                    0 <= j < i ==> (#[trigger] points@[j]).data@
                        == seq![buffer@[j], buffer@[j + 1], buffer@[j + 2]],
        {
            let p = ThreePoint { data: [buffer[i], buffer[i + 1], buffer[i + 2]] };
            assert(p.data@ =~= seq![buffer@[i as int], buffer@[i + 1], buffer@[i + 2]]);
            points.push(p);
        }
        points
    }
}

/// A vertex of a textured quad: a position in space and a texture coordinate.
#[derive(Clone, Copy)]
pub struct TexPoint {
    pub location: [F32Bytes; 3],
    pub tex_coord: [F32Bytes; 2],
}

impl Vertex for TexPoint {
    open spec fn spec_bytes(&self) -> Seq<u8> {
        self.location[0]@ + self.location[1]@ + self.location[2]@ + self.tex_coord[0]@
            + self.tex_coord[1]@
    }

    open spec fn spec_stride() -> nat {
        20
    }

    proof fn lemma_bytes_len(v: Self) {
    }

    fn stride() -> (s: usize) {
        20
    }

    fn from_bytes(bytes: &[u8]) -> (v: Self)
        ensures
            v.location[0]@ == bytes@.subrange(0, 4),
            v.location[1]@ == bytes@.subrange(4, 8),
            v.location[2]@ == bytes@.subrange(8, 12),
            v.tex_coord[0]@ == bytes@.subrange(12, 16),
            v.tex_coord[1]@ == bytes@.subrange(16, 20),
    {
        let location: [F32Bytes; 3] = [
            [bytes[0], bytes[1], bytes[2], bytes[3]],
            [bytes[4], bytes[5], bytes[6], bytes[7]],
            [bytes[8], bytes[9], bytes[10], bytes[11]],
        ];
        let tex_coord: [F32Bytes; 2] = [
            [bytes[12], bytes[13], bytes[14], bytes[15]],
            [bytes[16], bytes[17], bytes[18], bytes[19]],
        ];
        let v = TexPoint { location, tex_coord };
        assert(v.spec_bytes() =~= bytes@);
        v
    }

    fn to_bytes(&self) -> (bytes: Vec<u8>)
        ensures
            bytes@ == self.location[0]@ + self.location[1]@ + self.location[2]@ + self.tex_coord[0]@
                + self.tex_coord[1]@,
    {
        let l = self.location;
        let t = self.tex_coord;
        let bytes = vec![
            l[0][0], l[0][1], l[0][2], l[0][3],
            l[1][0], l[1][1], l[1][2], l[1][3],
            l[2][0], l[2][1], l[2][2], l[2][3],
            t[0][0], t[0][1], t[0][2], t[0][3],
            t[1][0], t[1][1], t[1][2], t[1][3],
        ];
        assert(bytes@ =~= self.spec_bytes());
        bytes
    }
}

/// The bytes of `n` vertices take `n` strides, and the `i`-th stride of them
/// holds the bytes of the `i`-th vertex.
pub proof fn lemma_concat_bytes_layout<V: Vertex>(vertices: Seq<V>)
    ensures
        concat_bytes(vertices).len() == vertices.len() * V::spec_stride(),
        forall|i: int|
            0 <= i < vertices.len() ==> concat_bytes(vertices).subrange(
                i * V::spec_stride(),
                (i + 1) * V::spec_stride(),
            ) == (#[trigger] vertices[i]).spec_bytes(),
    decreases vertices.len(),
{
    let s = V::spec_stride();
    if vertices.len() > 0 {
        let n = vertices.len() as int;
        let init = vertices.drop_last();
        lemma_concat_bytes_layout(init);
        V::lemma_bytes_len(vertices.last());
        let all = concat_bytes(vertices);
        assert(all == concat_bytes(init) + vertices.last().spec_bytes());
        assert(init.len() == n - 1);
        assert(concat_bytes(init).len() == (n - 1) * s);
        assert((n - 1) * s + s == n * s) by (nonlinear_arith);
        assert(all.len() == n * s);
        assert forall|i: int| 0 <= i < n implies all.subrange(i * s, (i + 1) * s)
            == (#[trigger] vertices[i]).spec_bytes() by {
            if i < n - 1 {
                assert((i + 1) * s <= (n - 1) * s) by (nonlinear_arith) requires i < n - 1, s >= 0;
                assert(0 <= i * s) by (nonlinear_arith) requires i >= 0, s >= 0;
                let lo = i * s;
                let hi = (i + 1) * s;
                assert(hi <= concat_bytes(init).len());
                assert(hi == lo + s) by (nonlinear_arith) requires lo == i * s, hi == (i + 1) * s;
                assert forall|k: int| 0 <= k < hi - lo implies all.subrange(lo, hi)[k]
                    == concat_bytes(init).subrange(lo, hi)[k] by {
                    assert(lo + k < concat_bytes(init).len());
                }
                assert(all.subrange(lo, hi) =~= concat_bytes(init).subrange(lo, hi));
                assert(init[i] == vertices[i]);
            } else {
                assert(all.subrange(i * s, (i + 1) * s) =~= vertices.last().spec_bytes());
            }
        }
    } else {
        assert(concat_bytes(vertices) =~= Seq::<u8>::empty());
        assert(vertices.len() * s == 0);
    }
}

/// Vertices turned into bytes and cut back into vertices come back as
/// vertices with the same bytes, as many as there were.
pub proof fn lemma_vertex_bytes_round_trip<V: Vertex>(vertices: Seq<V>)
    ensures
        concat_bytes(vertices).len() as int / (V::spec_stride() as int) == vertices.len(),
        forall|i: int|
            0 <= i < vertices.len() ==> concat_bytes(vertices).subrange(
                i * V::spec_stride(),
                (i + 1) * V::spec_stride(),
            ) == (#[trigger] vertices[i]).spec_bytes(),
{
    lemma_concat_bytes_layout(vertices);
    let s = V::spec_stride() as int;
    if vertices.len() > 0 {
        V::lemma_bytes_len(vertices[0]);
    } else {
        V::lemma_bytes_len(arbitrary());
    }
    vstd::arithmetic::div_mod::lemma_div_multiples_vanish(vertices.len() as int, s);
    assert(vertices.len() * s == s * vertices.len()) by (nonlinear_arith);
}

/// The driver objects of a piece of geometry (vertex array, vertex buffer and
/// element buffer), the vertices and indices last given to them, and the
/// usage hint for the vertex buffer.
#[allow(non_snake_case)]
pub struct Geometry<V: Vertex> {
    pub VAO: u32,
    pub VBO: u32,
    pub EBO: u32,
    pub vertices: Vec<V>,
    pub indices: Vec<u32>,
    pub usage: u32,
}

impl<V: Vertex> Geometry<V> {
    /// Geometry over the driver objects `vao`, `vbo` and `ebo`, with no
    /// vertices or indices yet.
    pub fn new(vao: u32, vbo: u32, ebo: u32, usage: u32) -> (geometry: Geometry<V>)
        ensures
            geometry.VAO == vao,
            geometry.VBO == vbo,
            geometry.EBO == ebo,
            geometry.usage == usage,
            geometry.vertices@ == Seq::<V>::empty(),
            geometry.indices@ == Seq::<u32>::empty(),
    {
        Geometry { VAO: vao, VBO: vbo, EBO: ebo, vertices: Vec::new(), indices: Vec::new(), usage }
    }

    /// Geometry over the driver objects `vao`, `vbo` and `ebo` holding copies of
    /// `vertices` and `indices`.
    pub fn from_verts_and_indices(
        vao: u32,
        vbo: u32,
        ebo: u32,
        usage: u32,
        vertices: &[V],
        indices: &[u32],
    ) -> (geometry: Geometry<V>)
        ensures
            geometry.VAO == vao,
            geometry.VBO == vbo,
            geometry.EBO == ebo,
            geometry.usage == usage,
            geometry.vertices@ == vertices@,
            geometry.indices@ == indices@,
    {
        let mut geom = Geometry::new(vao, vbo, ebo, usage);
        geom.vertices = vstd::slice::slice_to_vec(vertices);
        geom.indices = vstd::slice::slice_to_vec(indices);
        geom
    }

    /// The bytes of the vertices, one after the other: what the vertex buffer
    /// is filled with.
    pub fn vertex_bytes(&self) -> (bytes: Vec<u8>)
        ensures
            bytes@ == concat_bytes(self.vertices@),
    {
        let mut bytes: Vec<u8> = Vec::new();
        let n = self.vertices.len();
        for i in 0..n
            invariant
                n == self.vertices@.len(),
                bytes@ == concat_bytes(self.vertices@.take(i as int)),
        {
            let mut next = self.vertices[i].to_bytes();
            bytes.append(&mut next);
            assert(self.vertices@.take(i + 1).drop_last() =~= self.vertices@.take(i as int));
        }
        assert(self.vertices@.take(n as int) =~= self.vertices@);
        bytes
    }
}

/// The bytes of a point are its three floats in order: bytes 0..4 the first,
/// 4..8 the second, 8..12 the third.
pub proof fn lemma_three_point_layout(p: ThreePoint)
    ensures
        p.spec_bytes().len() == 12,
        p.spec_bytes().subrange(0, 4) == p.data[0]@,
        p.spec_bytes().subrange(4, 8) == p.data[1]@,
        p.spec_bytes().subrange(8, 12) == p.data[2]@,
{
    assert(p.spec_bytes().subrange(0, 4) =~= p.data[0]@);
    assert(p.spec_bytes().subrange(4, 8) =~= p.data[1]@);
    assert(p.spec_bytes().subrange(8, 12) =~= p.data[2]@);
}

/// The bytes of a textured vertex are its location (x, y, z) at bytes 0..12,
/// as the driver reads its first attribute, then its texture coordinate
/// (u, v) at bytes 12..20, as it reads the second.
pub proof fn lemma_tex_point_layout(p: TexPoint)
    ensures
        p.spec_bytes().len() == 20,
        p.spec_bytes().subrange(0, 4) == p.location[0]@,
        p.spec_bytes().subrange(4, 8) == p.location[1]@,
        p.spec_bytes().subrange(8, 12) == p.location[2]@,
        p.spec_bytes().subrange(12, 16) == p.tex_coord[0]@,
        p.spec_bytes().subrange(16, 20) == p.tex_coord[1]@,
{
    assert(p.spec_bytes().subrange(0, 4) =~= p.location[0]@);
    assert(p.spec_bytes().subrange(4, 8) =~= p.location[1]@);
    assert(p.spec_bytes().subrange(8, 12) =~= p.location[2]@);
    assert(p.spec_bytes().subrange(12, 16) =~= p.tex_coord[0]@);
    assert(p.spec_bytes().subrange(16, 20) =~= p.tex_coord[1]@);
}

/// Cutting bytes into textured vertices gives vertex `i` the location from
/// bytes `20i..20i+12` and the texture coordinate from `20i+12..20i+20`.
pub proof fn lemma_tex_point_buffer_fields(bytes: Seq<u8>, p: TexPoint, i: int)
    requires
        0 <= i,
        20 * i + 20 <= bytes.len(),
        p.spec_bytes() == bytes.subrange(20 * i, 20 * i + 20),
    ensures
        p.location[0]@ == bytes.subrange(20 * i, 20 * i + 4),
        p.location[1]@ == bytes.subrange(20 * i + 4, 20 * i + 8),
        p.location[2]@ == bytes.subrange(20 * i + 8, 20 * i + 12),
        p.tex_coord[0]@ == bytes.subrange(20 * i + 12, 20 * i + 16),
        p.tex_coord[1]@ == bytes.subrange(20 * i + 16, 20 * i + 20),
{
    lemma_tex_point_layout(p);
    assert(bytes.subrange(20 * i, 20 * i + 20).subrange(0, 4) =~= bytes.subrange(20 * i, 20 * i + 4));
    assert(bytes.subrange(20 * i, 20 * i + 20).subrange(4, 8) =~= bytes.subrange(20 * i + 4, 20 * i + 8));
    assert(bytes.subrange(20 * i, 20 * i + 20).subrange(8, 12) =~= bytes.subrange(20 * i + 8, 20 * i + 12));
    assert(bytes.subrange(20 * i, 20 * i + 20).subrange(12, 16) =~= bytes.subrange(20 * i + 12, 20 * i + 16));
    assert(bytes.subrange(20 * i, 20 * i + 20).subrange(16, 20) =~= bytes.subrange(20 * i + 16, 20 * i + 20));
}

} // verus!
