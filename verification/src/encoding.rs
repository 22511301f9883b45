//! Little-endian integers and rel32 jump encodings.
use vstd::prelude::*;
use crate::opcodes::JMP_REL32;

verus! {

/// The four little-endian bytes of a 32-bit two's-complement value.
pub open spec fn le32(v: u32) -> Seq<u8> {
    seq![(v % 0x100) as u8, ((v / 0x100) % 0x100) as u8, ((v / 0x10000) % 0x100) as u8, (v / 0x1000000) as u8]
}

/// The 32-bit value whose little-endian bytes are the first four of `b`.
pub open spec fn from_le32(b: Seq<u8>) -> int {
    b[0] + b[1] * 0x100 + b[2] * 0x10000 + b[3] * 0x1000000
}

/// Writes `v` as four little-endian bytes.
pub fn u32_le_bytes(v: u32) -> (r: [u8; 4])
    ensures
        r@ == le32(v),
{
    let b0: u8 = (v & 0xFF) as u8;
    let b1: u8 = ((v >> 8) & 0xFF) as u8;
    let b2: u8 = ((v >> 16) & 0xFF) as u8;
    let b3: u8 = (v >> 24) as u8;
    assert(b0 == v % 0x100 && b1 == (v / 0x100) % 0x100 && b2 == (v / 0x10000) % 0x100
        && b3 == v / 0x1000000) by (bit_vector)
        requires
            b0 == (v & 0xFF) as u8,
            b1 == ((v >> 8) & 0xFF) as u8,
            b2 == ((v >> 16) & 0xFF) as u8,
            b3 == (v >> 24) as u8,
    ;
    let r = [b0, b1, b2, b3];
    assert(r@ =~= le32(v));
    r
}

/// Reading back the bytes of `le32(v)` gives `v`.
pub proof fn lemma_le32_roundtrip(v: u32)
    ensures
        from_le32(le32(v)) == v,
{
    assert(v == v % 0x100 + ((v / 0x100) % 0x100) * 0x100 + ((v / 0x10000) % 0x100) * 0x10000
        + (v / 0x1000000) * 0x1000000) by (nonlinear_arith);
}


/// The signed value of a little-endian 32-bit field.
pub open spec fn signed_le32(b: Seq<u8>) -> int {
    let v = from_le32(b);
    if v >= 0x8000_0000 { v - 0x1_0000_0000 } else { v }
}

/// The displacement that a relative jump or call must carry to reach
/// `target` from the instruction that ends at `next_ip`, cut to 32 bits as
/// the processor reads it.
pub open spec fn rel32(next_ip: int, target: int) -> i32 {
    (target - next_ip) as i32
}

/// Whether `target` lies within reach of a rel32 displacement from `next_ip`.
pub open spec fn in_rel32_range(next_ip: int, target: int) -> bool {
    -0x8000_0000 <= target - next_ip < 0x8000_0000
}

/// The five bytes of `jmp rel32` placed at `at` and aimed at `target`.
pub open spec fn jmp_bytes(at: int, target: int) -> Seq<u8> {
    seq![JMP_REL32] + le32(rel32(at + 5, target) as u32)
}

/// Where a five-byte relative jump or call placed at `at` goes.
pub open spec fn branch_target(at: int, instr: Seq<u8>) -> int {
    at + 5 + signed_le32(instr.subrange(1, 5))
}

/// The displacement from `next_ip` to `target`, wrapped to 32 bits.
pub fn rel32_displacement(next_ip: usize, target: usize) -> (d: i32)
    ensures
        d == rel32(next_ip as int, target as int),
        in_rel32_range(next_ip as int, target as int) ==> d == target - next_ip,
{
    let diff: i128 = target as i128 - next_ip as i128;
    diff as i32
}

/// Bytes of a 32-bit signed value in little-endian order.
pub fn i32_le_bytes(v: i32) -> (r: [u8; 4])
    ensures
        r@ == le32(v as u32),
{
    u32_le_bytes(v as u32)
}

/// Encodes `jmp rel32` for an instruction placed at `at` that jumps to
/// `target`.
pub fn encode_jmp(at: usize, target: usize) -> (r: Vec<u8>)
    ensures
        r@ == jmp_bytes(at as int, target as int),
{
    encode_jmp_wide(at as i128, target as i128)
}

/// `encode_jmp` for addresses computed beyond the range of `usize`.
pub(crate) fn encode_jmp_wide(at: i128, target: i128) -> (r: Vec<u8>)
    requires
        -0x1_0000_0000_0000_0000_0000 <= at <= 0x1_0000_0000_0000_0000_0000,
        -0x1_0000_0000_0000_0000_0000 <= target <= 0x1_0000_0000_0000_0000_0000,
    ensures
        r@ == jmp_bytes(at as int, target as int),
{
    let diff: i128 = target - (at + 5);
    let d: i32 = diff as i32;
    let b = i32_le_bytes(d);
    let mut r: Vec<u8> = Vec::new();
    r.push(JMP_REL32);
    r.push(b[0]);
    r.push(b[1]);
    r.push(b[2]);
    r.push(b[3]);
    assert(r@ =~= jmp_bytes(at as int, target as int));
    r
}

/// Reading a 32-bit field back as signed gives the value that was written.
pub proof fn lemma_signed_le32_roundtrip(d: i32)
    ensures
        signed_le32(le32(d as u32)) == d,
{
    lemma_le32_roundtrip(d as u32);
    assert(d < 0 ==> (d as u32) == d + 0x1_0000_0000) by (bit_vector);
    assert(d >= 0 ==> (d as u32) == d) by (bit_vector);
}

/// A jump encoded from `at` to a `target` within rel32 reach lands on
/// `target`.
pub proof fn lemma_jmp_lands(at: int, target: int)
    requires
        in_rel32_range(at + 5, target),
    ensures
        branch_target(at, jmp_bytes(at, target)) == target,
        jmp_bytes(at, target).len() == 5,
        jmp_bytes(at, target)[0] == JMP_REL32,
{
    let d = rel32(at + 5, target);
    assert(d == target - (at + 5));
    lemma_signed_le32_roundtrip(d);
    assert(jmp_bytes(at, target).subrange(1, 5) =~= le32(d as u32));
}

} // verus!
