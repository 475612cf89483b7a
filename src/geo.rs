use vstd::prelude::*;

verus! {

/// A point or vector of three IEEE-754 single-precision coordinates, each
/// held as its bit pattern (`f32::to_bits`).
#[derive(Clone, Copy, Debug, PartialEq, Eq, Hash, Structural)]
pub struct Vec3 {
    pub x: u32,
    pub y: u32,
    pub z: u32,
}

/// Little-endian bytes of a 32-bit word.
pub open spec fn le32(v: u32) -> Seq<u8> {
    seq![
        (v & 0xff) as u8,
        ((v >> 8u32) & 0xff) as u8,
        ((v >> 16u32) & 0xff) as u8,
        ((v >> 24u32) & 0xff) as u8,
    ]
}

/// The 32-bit word whose little-endian bytes are `b0, b1, b2, b3`.
pub open spec fn decode_le32(b0: u8, b1: u8, b2: u8, b3: u8) -> u32 {
    (b0 as u32) | ((b1 as u32) << 8u32) | ((b2 as u32) << 16u32) | ((b3 as u32) << 24u32)
}

/// The 32-bit word stored little-endian at `bytes[at..at + 4]`.
pub open spec fn read_le32(bytes: Seq<u8>, at: int) -> u32 {
    decode_le32(bytes[at], bytes[at + 1], bytes[at + 2], bytes[at + 3])
}

/// The twelve bytes of a vector: x, y, z, each little-endian.
pub open spec fn vec3_bytes(v: Vec3) -> Seq<u8> {
    le32(v.x) + le32(v.y) + le32(v.z)
}

/// The vector stored at `bytes[at..at + 12]`.
pub open spec fn read_vec3(bytes: Seq<u8>, at: int) -> Vec3 {
    Vec3 { x: read_le32(bytes, at), y: read_le32(bytes, at + 4), z: read_le32(bytes, at + 8) }
}

pub proof fn lemma_le32_round_trip(v: u32)
    ensures
        le32(v).len() == 4,
        decode_le32(le32(v)[0], le32(v)[1], le32(v)[2], le32(v)[3]) == v,
{
    let b0 = (v & 0xff) as u8;
    let b1 = ((v >> 8u32) & 0xff) as u8;
    let b2 = ((v >> 16u32) & 0xff) as u8;
    let b3 = ((v >> 24u32) & 0xff) as u8;
    assert(decode_le32(b0, b1, b2, b3) == v) by (bit_vector)
        requires
            b0 == (v & 0xff) as u8,
            b1 == ((v >> 8u32) & 0xff) as u8,
            b2 == ((v >> 16u32) & 0xff) as u8,
            b3 == ((v >> 24u32) & 0xff) as u8,
    ;
}

pub proof fn lemma_vec3_round_trip(bytes: Seq<u8>, at: int, v: Vec3)
    requires
        0 <= at,
        at + 12 <= bytes.len(),
        bytes.subrange(at, at + 12) == vec3_bytes(v),
    ensures
        read_vec3(bytes, at) == v,
{
    lemma_le32_round_trip(v.x);
    lemma_le32_round_trip(v.y);
    lemma_le32_round_trip(v.z);
    let s = bytes.subrange(at, at + 12);
    assert(forall|i: int| 0 <= i < 12 ==> bytes[at + i] == s[i]);
    assert(s[0] == le32(v.x)[0] && s[1] == le32(v.x)[1] && s[2] == le32(v.x)[2] && s[3] == le32(v.x)[3]);
    assert(s[4] == le32(v.y)[0] && s[5] == le32(v.y)[1] && s[6] == le32(v.y)[2] && s[7] == le32(v.y)[3]);
    assert(s[8] == le32(v.z)[0] && s[9] == le32(v.z)[1] && s[10] == le32(v.z)[2] && s[11] == le32(v.z)[3]);
}

fn push_le32(out: &mut Vec<u8>, v: u32)
    ensures
        final(out)@ == old(out)@ + le32(v),
{
    out.push((v & 0xff) as u8);
    out.push(((v >> 8u32) & 0xff) as u8);
    out.push(((v >> 16u32) & 0xff) as u8);
    out.push(((v >> 24u32) & 0xff) as u8);
    assert(final(out)@ =~= old(out)@ + le32(v));
}

impl Vec3 {
    /// The twelve bytes of this vector: x, y, z, each little-endian.
    pub fn to_bytes(&self) -> (r: [u8; 12])
        ensures
            r@ == vec3_bytes(*self),
    {
        let r = [
            (self.x & 0xff) as u8,
            ((self.x >> 8u32) & 0xff) as u8,
            ((self.x >> 16u32) & 0xff) as u8,
            ((self.x >> 24u32) & 0xff) as u8,
            (self.y & 0xff) as u8,
            ((self.y >> 8u32) & 0xff) as u8,
            ((self.y >> 16u32) & 0xff) as u8,
            ((self.y >> 24u32) & 0xff) as u8,
            (self.z & 0xff) as u8,
            ((self.z >> 8u32) & 0xff) as u8,
            ((self.z >> 16u32) & 0xff) as u8,
            ((self.z >> 24u32) & 0xff) as u8,
        ];
        assert(r@ =~= vec3_bytes(*self));
        r
    }
}

/// Why a mesh could not be written out.
#[derive(Clone, Copy, Debug, PartialEq, Eq, Structural)]
pub enum MeshError {
    /// The vertex count is not a multiple of three: the mesh does not split into
    /// triangles.
    Malformed,
    /// There is not exactly one normal per triangle.
    NormalCount,
}

/// An ordered list of vertices; each consecutive triple is one triangle, in
/// its winding order.
pub struct Mesh {
    vertices: Vec<Vec3>,
}

/// Bytes of one STL facet: normal, the three vertices in order, two zero bytes.
pub open spec fn facet_bytes(normal: Vec3, a: Vec3, b: Vec3, c: Vec3) -> Seq<u8> {
    vec3_bytes(normal) + vec3_bytes(a) + vec3_bytes(b) + vec3_bytes(c) + seq![0u8, 0u8]
}

/// Bytes of triangle `t` of `vertices`, with its normal taken from `normals`.
pub open spec fn triangle_bytes(vertices: Seq<Vec3>, normals: Seq<Vec3>, t: int) -> Seq<u8> {
    facet_bytes(normals[t], vertices[3 * t], vertices[3 * t + 1], vertices[3 * t + 2])
}

/// Bytes of the first `k` triangles, one after the other.
pub open spec fn facets(vertices: Seq<Vec3>, normals: Seq<Vec3>, k: nat) -> Seq<u8>
    decreases k,
{
    if k == 0 {
        Seq::empty()
    } else {
        facets(vertices, normals, (k - 1) as nat) + triangle_bytes(vertices, normals, k - 1)
    }
}

/// The binary STL encoding of a triangle list: an 80-byte zero header, the
/// triangle count as a little-endian `u32`, then one 50-byte facet per triangle.
pub open spec fn stl_bytes(vertices: Seq<Vec3>, normals: Seq<Vec3>) -> Seq<u8> {
    Seq::new(80, |i: int| 0u8) + le32((vertices.len() / 3) as u32) + facets(
        vertices,
        normals,
        vertices.len() / 3,
    )
}

/// What writing out `vertices` with `normals` gives.
pub open spec fn stl_result(vertices: Seq<Vec3>, normals: Seq<Vec3>) -> Result<Seq<u8>, MeshError> {
    if vertices.len() % 3 != 0 {
        Err(MeshError::Malformed)
    } else if normals.len() != vertices.len() / 3 {
        Err(MeshError::NormalCount)
    } else {
        Ok(stl_bytes(vertices, normals))
    }
}

pub proof fn lemma_facets_layout(vertices: Seq<Vec3>, normals: Seq<Vec3>, k: nat)
    ensures
        facets(vertices, normals, k).len() == 50 * k,
        forall|t: int|
            0 <= t < k ==> #[trigger] facets(vertices, normals, k).subrange(50 * t, 50 * t + 50)
                == triangle_bytes(vertices, normals, t),
    decreases k,
{
    if k > 0 {
        let k1 = (k - 1) as nat;
        lemma_facets_layout(vertices, normals, k1);
        let prev = facets(vertices, normals, k1);
        let whole = facets(vertices, normals, k);
        assert forall|t: int| 0 <= t < k implies #[trigger] whole.subrange(50 * t, 50 * t + 50)
            == triangle_bytes(vertices, normals, t) by {
            if t < k1 {
                assert(whole.subrange(50 * t, 50 * t + 50) =~= prev.subrange(50 * t, 50 * t + 50));
            } else {
                assert(whole.subrange(50 * t, 50 * t + 50) =~= triangle_bytes(vertices, normals, t));
            }
        }
    }
}

/// Reading back an STL encoding: its length is `84 + 50 * n` for `n` triangles,
/// the 80-byte header is zero, bytes `80..84` hold `n`, and each facet gives
/// back, bit for bit, its normal and the triangle's three vertices in order,
/// followed by two zero bytes.
pub proof fn lemma_stl_round_trip(vertices: Seq<Vec3>, normals: Seq<Vec3>)
    requires
        vertices.len() % 3 == 0,
        normals.len() == vertices.len() / 3,
        vertices.len() / 3 <= u32::MAX,
    ensures
        ({
            let bytes = stl_bytes(vertices, normals);
            let n = vertices.len() / 3;
            &&& bytes.len() == 84 + 50 * n
            &&& forall|i: int| 0 <= i < 80 ==> bytes[i] == 0
            &&& read_le32(bytes, 80) == n
            &&& forall|t: int|
                0 <= t < n ==> {
                    &&& #[trigger] read_vec3(bytes, 84 + 50 * t) == normals[t]
                    &&& read_vec3(bytes, 84 + 50 * t + 12) == vertices[3 * t]
                    &&& read_vec3(bytes, 84 + 50 * t + 24) == vertices[3 * t + 1]
                    &&& read_vec3(bytes, 84 + 50 * t + 36) == vertices[3 * t + 2]
                    &&& bytes[84 + 50 * t + 48] == 0
                    &&& bytes[84 + 50 * t + 49] == 0
                }
        }),
{
    let bytes = stl_bytes(vertices, normals);
    let n = vertices.len() / 3;
    let body = facets(vertices, normals, n);
    lemma_facets_layout(vertices, normals, n);
    lemma_le32_round_trip(n as u32);
    assert(bytes.subrange(80, 84) =~= le32(n as u32));
    assert(bytes[80] == le32(n as u32)[0] && bytes[81] == le32(n as u32)[1]);
    assert(bytes[82] == le32(n as u32)[2] && bytes[83] == le32(n as u32)[3]);
    assert forall|t: int| 0 <= t < n implies {
        &&& #[trigger] read_vec3(bytes, 84 + 50 * t) == normals[t]
        &&& read_vec3(bytes, 84 + 50 * t + 12) == vertices[3 * t]
        &&& read_vec3(bytes, 84 + 50 * t + 24) == vertices[3 * t + 1]
        &&& read_vec3(bytes, 84 + 50 * t + 36) == vertices[3 * t + 2]
        &&& bytes[84 + 50 * t + 48] == 0
        &&& bytes[84 + 50 * t + 49] == 0
    } by {
        assert(body.subrange(50 * t, 50 * t + 50) == triangle_bytes(vertices, normals, t));
        assert(bytes.subrange(84 + 50 * t, 84 + 50 * t + 50) =~= body.subrange(50 * t, 50 * t + 50));
        lemma_facet_round_trip(bytes, 84 + 50 * t, normals[t], vertices[3 * t], vertices[3 * t + 1], vertices[3 * t + 2]);
    }
}

proof fn lemma_facet_round_trip(bytes: Seq<u8>, at: int, n: Vec3, a: Vec3, b: Vec3, c: Vec3)
    requires
        0 <= at,
        at + 50 <= bytes.len(),
        bytes.subrange(at, at + 50) == facet_bytes(n, a, b, c),
    ensures
        read_vec3(bytes, at) == n,
        read_vec3(bytes, at + 12) == a,
        read_vec3(bytes, at + 24) == b,
        read_vec3(bytes, at + 36) == c,
        bytes[at + 48] == 0,
        bytes[at + 49] == 0,
{
    let f = facet_bytes(n, a, b, c);
    assert(f.subrange(0, 12) =~= vec3_bytes(n));
    assert(f.subrange(12, 24) =~= vec3_bytes(a));
    assert(f.subrange(24, 36) =~= vec3_bytes(b));
    assert(f.subrange(36, 48) =~= vec3_bytes(c));
    assert(bytes.subrange(at, at + 12) =~= f.subrange(0, 12));
    assert(bytes.subrange(at + 12, at + 24) =~= f.subrange(12, 24));
    assert(bytes.subrange(at + 24, at + 36) =~= f.subrange(24, 36));
    assert(bytes.subrange(at + 36, at + 48) =~= f.subrange(36, 48));
    lemma_vec3_round_trip(bytes, at, n);
    lemma_vec3_round_trip(bytes, at + 12, a);
    lemma_vec3_round_trip(bytes, at + 24, b);
    lemma_vec3_round_trip(bytes, at + 36, c);
    assert(bytes[at + 48] == f[48]);
    assert(bytes[at + 49] == f[49]);
}

/// Writing out is a function of the vertices and normals alone: the same mesh
/// written twice gives the same bytes (or the same error).
pub proof fn lemma_stl_deterministic(first: &Mesh, second: &Mesh, normals: Seq<Vec3>)
    requires
        first@ == second@,
    ensures
        stl_result(first@, normals) == stl_result(second@, normals),
{
}

impl View for Mesh {
    type V = Seq<Vec3>;

    closed spec fn view(&self) -> Seq<Vec3> {
        self.vertices@
    }
}

fn push_vec3(out: &mut Vec<u8>, v: &Vec3)
    ensures
        final(out)@ == old(out)@ + vec3_bytes(*v),
{
    push_le32(out, v.x);
    push_le32(out, v.y);
    push_le32(out, v.z);
    assert(final(out)@ =~= old(out)@ + vec3_bytes(*v));
}

impl Mesh {
    /// A mesh made of `vertices`, taken three at a time as triangles.
    pub fn new(vertices: Vec<Vec3>) -> (r: Mesh)
        ensures
            r@ == vertices@,
    {
        Mesh { vertices }
    }

    /// The vertices, in order.
    pub fn vertices(&self) -> (r: &Vec<Vec3>)
        ensures
            r@ == self@,
    {
        &self.vertices
    }

    /// The number of whole triangles.
    pub fn triangle_count(&self) -> (r: usize)
        ensures
            r == self@.len() / 3,
    {
        self.vertices.len() / 3
    }

    /// The binary STL encoding of this mesh, with `normals[t]` written as the
    /// normal of triangle `t`.
    pub fn as_stl_bytes(&self, normals: &Vec<Vec3>) -> (r: Result<Vec<u8>, MeshError>)
        requires
            self@.len() / 3 <= u32::MAX,
        ensures
            r matches Ok(bytes) ==> stl_result(self@, normals@) == Ok::<Seq<u8>, MeshError>(bytes@),
            r matches Err(e) ==> stl_result(self@, normals@) == Err::<Seq<u8>, MeshError>(e),
    {
        let len = self.vertices.len();
        if len % 3 != 0 {
            return Err(MeshError::Malformed);
        }
        let count = len / 3;
        if normals.len() != count {
            return Err(MeshError::NormalCount);
        }
        let mut bytes: Vec<u8> = Vec::new();
        let mut i: usize = 0;
        while i < 80
            invariant
                i <= 80,
                bytes@ == Seq::new(i as nat, |j: int| 0u8),
            decreases 80 - i,
        {
            bytes.push(0u8);
            i = i + 1;
            assert(bytes@ =~= Seq::new(i as nat, |j: int| 0u8));
        }
        push_le32(&mut bytes, count as u32);
        let ghost head = bytes@;
        let mut t: usize = 0;
        while t < count
            invariant
                t <= count,
                count == self@.len() / 3,
                len == self@.len(),
                len == 3 * count,
                normals@.len() == count,
                bytes@ == head + facets(self@, normals@, t as nat),
            decreases count - t,
        {
            push_vec3(&mut bytes, &normals[t]);
            push_vec3(&mut bytes, &self.vertices[3 * t]);
            push_vec3(&mut bytes, &self.vertices[3 * t + 1]);
            push_vec3(&mut bytes, &self.vertices[3 * t + 2]);
            bytes.push(0u8);
            bytes.push(0u8);
            assert(bytes@ =~= head + facets(self@, normals@, (t + 1) as nat));
            t = t + 1;
        }
        assert(bytes@ =~= stl_bytes(self@, normals@));
        Ok(bytes)
    }
}

} // verus!
