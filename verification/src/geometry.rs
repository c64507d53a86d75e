use vstd::prelude::*;

verus! {

/// Number of vertices of the full-screen quad.
pub const QUAD_VERTEX_COUNT: u16 = 4;

/// The quad drawn as a triangle list: two triangles over its four corners.
pub open spec fn spec_quad_indices() -> Seq<u16> {
    seq![2u16, 1u16, 0u16, 3u16, 2u16, 0u16]
}

/// The two bytes of `v` in memory order: low byte first on a little-endian
/// machine, high byte first on a big-endian one.
pub open spec fn u16_bytes(v: u16, little_endian: bool) -> (u8, u8) {
    let lo = (v % 256) as u8;
    let hi = (v / 256) as u8;
    if little_endian {
        (lo, hi)
    } else {
        (hi, lo)
    }
}

/// `bytes` is `values` laid out in memory in the given byte order.
pub open spec fn is_u16_layout_in_order(values: Seq<u16>, bytes: Seq<u8>, little_endian: bool) -> bool {
    &&& bytes.len() == 2 * values.len()
    &&& forall|i: int|
        0 <= i < values.len() ==> (bytes[2 * i], bytes[2 * i + 1]) == u16_bytes(
            #[trigger] values[i],
            little_endian,
        )
}

/// `bytes` is `values` laid out in memory with one byte order throughout.
pub open spec fn is_u16_layout(values: Seq<u16>, bytes: Seq<u8>) -> bool {
    exists|little_endian: bool| #[trigger] is_u16_layout_in_order(values, bytes, little_endian)
}

/// Calls `bytemuck::cast_slice::<u16, u8>`, which views the indices' memory
/// as bytes, and copies the bytes out. Claimed of it: twice as many bytes as
/// indices, each index as its two bytes in the machine's byte order, the
/// same order for every index. Which order that is depends on the machine
/// and is left open.
#[verifier::external_body]
fn cast_indices_to_bytes(indices: &[u16]) -> (bytes: Vec<u8>)
    ensures
        is_u16_layout(indices@, bytes@),
{
    bytemuck::cast_slice::<u16, u8>(indices).to_vec()
}

/// The index list of the full-screen quad.
pub fn quad_indices() -> (indices: Vec<u16>)
    ensures
        indices@ == spec_quad_indices(),
{
    let mut indices: Vec<u16> = Vec::new();
    indices.push(2);
    indices.push(1);
    indices.push(0);
    indices.push(3);
    indices.push(2);
    indices.push(0);
    indices
}

/// How many indices the quad is drawn with.
pub fn quad_index_count() -> (count: u32)
    ensures
        count == spec_quad_indices().len(),
{
    let indices = quad_indices();
    indices.len() as u32
}

/// The contents of the index buffer: the quad's indices as the device reads
/// them from memory.
pub fn quad_index_bytes() -> (bytes: Vec<u8>)
    ensures
        is_u16_layout(spec_quad_indices(), bytes@),
{
    let indices = quad_indices();
    cast_indices_to_bytes(indices.as_slice())
}

/// Triangle `t` of a triangle list has three different corners.
pub open spec fn triangle_is_proper(indices: Seq<u16>, t: int) -> bool {
    &&& indices[3 * t] != indices[3 * t + 1]
    &&& indices[3 * t + 1] != indices[3 * t + 2]
    &&& indices[3 * t] != indices[3 * t + 2]
}

/// Every index names one of the quad's vertices.
pub proof fn lemma_quad_indices_in_range()
    ensures
        forall|i: int|
            0 <= i < spec_quad_indices().len() ==> #[trigger] spec_quad_indices()[i]
                < QUAD_VERTEX_COUNT,
{
}

/// The indices form whole triangles, none of them degenerate, and together
/// they reach every vertex of the quad.
pub proof fn lemma_quad_triangles_cover_quad()
    ensures
        spec_quad_indices().len() % 3 == 0,
        forall|t: int|
            0 <= t < spec_quad_indices().len() / 3 ==> #[trigger] triangle_is_proper(
                spec_quad_indices(),
                t,
            ),
        forall|v: u16| v < QUAD_VERTEX_COUNT ==> #[trigger] spec_quad_indices().contains(v),
{
    let s = spec_quad_indices();
    assert(s[2] == 0u16 && s[1] == 1u16 && s[0] == 2u16 && s[3] == 3u16);
    assert forall|t: int| 0 <= t < s.len() / 3 implies #[trigger] triangle_is_proper(s, t) by {
        assert(t == 0 || t == 1);
    }
}

} // verus!
