use vstd::prelude::*;

verus! {

/// The little-endian 32-bit word that starts at byte `i` of `b`.
pub open spec fn u32_at(b: Seq<u8>, i: int) -> u32 {
    (b[i] as int + b[i + 1] as int * 0x100 + b[i + 2] as int * 0x1_0000 + b[i + 3] as int
        * 0x100_0000) as u32
}

/// Reads the little-endian word at `*pos` and advances the cursor past it.
pub(crate) fn read_u32_le(b: &[u8], pos: &mut usize) -> (r: u32)
    requires
        *old(pos) + 4 <= b@.len(),
    ensures
        r == u32_at(b@, *old(pos) as int),
        *final(pos) == *old(pos) + 4,
{
    let p = *pos;
    let r = (b[p] as u32) + (b[p + 1] as u32) * 0x100 + (b[p + 2] as u32) * 0x1_0000 + (b[p + 3]
        as u32) * 0x100_0000;
    *pos = p + 4;
    r
}

/// Appends the four little-endian bytes of `x`.
pub(crate) fn push_u32_le(out: &mut Vec<u8>, x: u32)
    ensures
        final(out)@.len() == old(out)@.len() + 4,
        forall|i: int| 0 <= i < old(out)@.len() ==> final(out)@[i] == old(out)@[i],
        u32_at(final(out)@, old(out)@.len() as int) == x,
{
    let b0 = (x % 0x100) as u8;
    let b1 = ((x / 0x100) % 0x100) as u8;
    let b2 = ((x / 0x1_0000) % 0x100) as u8;
    let b3 = (x / 0x100_0000) as u8;
    assert(x == (x % 0x100) + ((x / 0x100) % 0x100) * 0x100 + ((x / 0x1_0000) % 0x100) * 0x1_0000
        + (x / 0x100_0000) * 0x100_0000) by (bit_vector);
    let ghost n = out@.len() as int;
    out.push(b0);
    out.push(b1);
    out.push(b2);
    out.push(b3);
    assert(out@[n] == b0 && out@[n + 1] == b1 && out@[n + 2] == b2 && out@[n + 3] == b3);
}

} // verus!
