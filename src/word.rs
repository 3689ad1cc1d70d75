use vstd::prelude::*;

verus! {

/// The unsigned bit pattern of a signed byte.
pub open spec fn byte_of(x: i8) -> int {
    if x < 0 { x + 256 } else { x as int }
}

/// The signed byte whose bit pattern is `b` (0..=255).
pub open spec fn signed_of(b: int) -> int {
    if b < 128 { b } else { b - 256 }
}

/// The word holding the bit patterns of `a`, `b`, `c`, `d`, `a` in the highest byte.
pub open spec fn pack_spec(a: i8, b: i8, c: i8, d: i8) -> int {
    byte_of(a) * 0x1000000 + byte_of(b) * 0x10000 + byte_of(c) * 0x100 + byte_of(d)
}

/// The four bytes of `w` as signed bytes, the highest first.
pub open spec fn unpack_spec(w: u32) -> (int, int, int, int) {
    (
        signed_of(w as int / 0x1000000),
        signed_of((w as int / 0x10000) % 0x100),
        signed_of((w as int / 0x100) % 0x100),
        signed_of(w as int % 0x100),
    )
}

fn raw_byte(x: i8) -> (r: u32)
    ensures
        r == byte_of(x),
{
    if x < 0 {
        (x as i16 + 256) as u32
    } else {
        x as u32
    }
}

fn to_signed(b: u32) -> (r: i8)
    requires
        b < 256,
    ensures
        r == signed_of(b as int),
{
    if b < 128 {
        b as i8
    } else {
        (b as i16 - 256) as i8
    }
}

/// Packs four signed bytes into one word, `a` in bits 31..24 and `d` in bits 7..0.
/// Each byte is stored as its raw bit pattern.
pub fn pack4x8to32(a: i8, b: i8, c: i8, d: i8) -> (r: u32)
    ensures
        r == pack_spec(a, b, c, d),
{
    let ax = raw_byte(a);
    let bx = raw_byte(b);
    let cx = raw_byte(c);
    let dx = raw_byte(d);
    assert(ax * 0x1000000 + bx * 0x10000 + cx * 0x100 + dx < 0x1_0000_0000) by (nonlinear_arith)
        requires ax < 256, bx < 256, cx < 256, dx < 256;
    ax * 0x1000000 + bx * 0x10000 + cx * 0x100 + dx
}

/// Splits a word into its four bytes, read as signed bytes, the highest first.
pub fn unpack32to4x8(w: u32) -> (r: (i8, i8, i8, i8))
    ensures
        (r.0 as int, r.1 as int, r.2 as int, r.3 as int) == unpack_spec(w),
{
    (to_signed(w / 0x1000000), to_signed((w / 0x10000) % 0x100), to_signed((w / 0x100) % 0x100), to_signed(w % 0x100))
}

/// Unpacking a packed word gives back the four bytes that were packed.
pub proof fn lemma_unpack_pack(a: i8, b: i8, c: i8, d: i8)
    ensures
        0 <= pack_spec(a, b, c, d) < 0x1_0000_0000,
        unpack_spec(pack_spec(a, b, c, d) as u32) == (a as int, b as int, c as int, d as int),
{
    let (x, y, z, t) = (byte_of(a), byte_of(b), byte_of(c), byte_of(d));
    let w = pack_spec(a, b, c, d);
    assert(0 <= x < 256 && 0 <= y < 256 && 0 <= z < 256 && 0 <= t < 256);
    assert(w / 0x1000000 == x && (w / 0x10000) % 0x100 == y && (w / 0x100) % 0x100 == z && w % 0x100 == t
        && 0 <= w < 0x1_0000_0000) by (nonlinear_arith)
        requires
            w == x * 0x1000000 + y * 0x10000 + z * 0x100 + t,
            0 <= x < 256, 0 <= y < 256, 0 <= z < 256, 0 <= t < 256;
}

} // verus!
