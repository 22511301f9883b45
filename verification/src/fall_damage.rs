//! The fall-damage hook: the 7-byte `movups xmm6, [rcx+0x170]` at the hook
//! site is replaced by a jump to a stub that loads a fixed vector into
//! `xmm6` instead and jumps back behind the replaced instruction.
use vstd::prelude::*;
use crate::encoding::{branch_target, encode_jmp, encode_jmp_wide, i32_le_bytes, in_rel32_range, jmp_bytes, le32, signed_le32, lemma_jmp_lands, lemma_signed_le32_roundtrip, u32_le_bytes};
use crate::error::PatchError;
use crate::opcodes::NOP;
use crate::patch::{bytes_equal, fits, lemma_restore_undoes_patch, read_at, write_at};

verus! {

/// Offset of the hooked instruction from the executable's base.
pub const HOOK_OFFSET: usize = 0x9C83CA;

/// Length of the hooked instruction, and of the hook written over it.
pub const HOOK_LEN: usize = 7;

/// Length of the stub.
pub const STUB_LEN: usize = 28;

/// Where the vector loaded by the stub starts inside the stub.
pub const STUB_DATA_START: usize = 12;

/// Size of the memory allocated for the stub.
pub const STUB_ALLOCATION: usize = 0x1000;

/// `movups xmm6, [rip+disp32]`, without its displacement.
pub const MOVUPS_XMM6_RIP: [u8; 3] = [0x0F, 0x28, 0x35];

/// Displacement of the stub's load: it skips the 5-byte jump back.
pub const STUB_LOAD_DISP: i32 = 5;

/// IEEE-754 single-precision bit pattern of +0.0.
pub const F32_ZERO_BITS: u32 = 0x0000_0000;

/// IEEE-754 single-precision bit pattern of -2000.0, the value put in the
/// second lane of `xmm6`.
pub const F32_MINUS_2000_BITS: u32 = 0xC4FA_0000;

/// IEEE-754 single-precision bit pattern of 1.0.
pub const F32_ONE_BITS: u32 = 0x3F80_0000;

/// The hooked instruction, `movups xmm6, [rcx+0x170]`.
pub open spec fn hook_site_original() -> Seq<u8> {
    seq![0x0Fu8, 0x28u8, 0xB1u8, 0x70u8, 0x01u8, 0x00u8, 0x00u8]
}

/// The 16 bytes of the vector that the stub loads into `xmm6`.
pub open spec fn stub_vector() -> Seq<u8> {
    le32(F32_ZERO_BITS) + le32(F32_MINUS_2000_BITS) + le32(F32_ZERO_BITS) + le32(F32_ONE_BITS)
}

/// The stub placed at `stub`: load the vector, jump back behind the hook at
/// `hook`, then the vector itself.
pub open spec fn stub_bytes(stub: int, hook: int) -> Seq<u8> {
    MOVUPS_XMM6_RIP@ + le32(STUB_LOAD_DISP as u32) + jmp_bytes(stub + 7, hook + HOOK_LEN)
        + stub_vector()
}

/// The hook written at `hook`: a jump to the stub at `stub`, padded with
/// `nop` to the length of the replaced instruction.
pub open spec fn hook_bytes(hook: int, stub: int) -> Seq<u8> {
    jmp_bytes(hook, stub) + seq![NOP, NOP]
}

/// The hooked instruction, `movups xmm6, [rcx+0x170]`.
pub fn hook_site_bytes() -> (r: Vec<u8>)
    ensures
        r@ == hook_site_original(),
{
    let r: Vec<u8> = vec![0x0F, 0x28, 0xB1, 0x70, 0x01, 0x00, 0x00];
    assert(r@ =~= hook_site_original());
    r
}

/// Checks that the hook site still holds the instruction the hook replaces.
pub fn check_hook_site(found: &[u8]) -> (r: Result<(), PatchError>)
    ensures
        r is Ok <==> found@ == hook_site_original(),
        r matches Err(e) ==> e matches PatchError::HookMismatch { found: f } && f@ == found@,
{
    let expected = hook_site_bytes();
    if bytes_equal(found, expected.as_slice()) {
        Ok(())
    } else {
        Err(PatchError::HookMismatch { found: vstd::slice::slice_to_vec(found) })
    }
}

/// Appends four bytes.
fn push4(r: &mut Vec<u8>, b: [u8; 4])
    ensures
        final(r)@ == old(r)@ + b@,
{
    r.push(b[0]);
    r.push(b[1]);
    r.push(b[2]);
    r.push(b[3]);
    assert(final(r)@ =~= old(r)@ + b@);
}

/// Builds the stub that goes at address `stub` for the hook at `hook`.
pub fn build_stub(stub: usize, hook: usize) -> (r: Vec<u8>)
    ensures
        r@ == stub_bytes(stub as int, hook as int),
        r@.len() == STUB_LEN,
{
    let mut r: Vec<u8> = Vec::new();
    r.push(MOVUPS_XMM6_RIP[0]);
    r.push(MOVUPS_XMM6_RIP[1]);
    r.push(MOVUPS_XMM6_RIP[2]);
    push4(&mut r, i32_le_bytes(STUB_LOAD_DISP));
    let jmp_at: i128 = stub as i128 + 7;
    let back: i128 = hook as i128 + 7;
    let mut jmp = encode_jmp_wide(jmp_at, back);
    r.append(&mut jmp);
    push4(&mut r, u32_le_bytes(F32_ZERO_BITS));
    push4(&mut r, u32_le_bytes(F32_MINUS_2000_BITS));
    push4(&mut r, u32_le_bytes(F32_ZERO_BITS));
    push4(&mut r, u32_le_bytes(F32_ONE_BITS));
    assert(r@ =~= stub_bytes(stub as int, hook as int));
    r
}


/// Builds the hook that goes at address `hook` and jumps to the stub at
/// `stub`.
pub fn build_hook(hook: usize, stub: usize) -> (r: Vec<u8>)
    ensures
        r@ == hook_bytes(hook as int, stub as int),
        r@.len() == HOOK_LEN,
{
    let mut r = encode_jmp(hook, stub);
    r.push(NOP);
    r.push(NOP);
    assert(r@ =~= hook_bytes(hook as int, stub as int));
    r
}

/// The stub is laid out as the hook expects: its load reads the vector
/// stored at `STUB_DATA_START`, and its jump, when the hook is within rel32
/// reach, returns to the instruction right after the hooked one.
pub proof fn lemma_stub_layout(stub: int, hook: int)
    ensures
        stub_bytes(stub, hook).len() == 28,
        stub_bytes(stub, hook).subrange(0, 7) == seq![0x0Fu8, 0x28u8, 0x35u8, 0x05u8, 0x00u8, 0x00u8, 0x00u8],
        stub_bytes(stub, hook)[7] == 0xE9u8,
        stub_bytes(stub, hook).subrange(12, 28) == seq![
            0x00u8, 0x00u8, 0x00u8, 0x00u8,
            0x00u8, 0x00u8, 0xFAu8, 0xC4u8,
            0x00u8, 0x00u8, 0x00u8, 0x00u8,
            0x00u8, 0x00u8, 0x80u8, 0x3Fu8,
        ],
        -0x8000_0000 <= (hook + 7) - (stub + 12) < 0x8000_0000 ==> stub + 12 + signed_le32(
            stub_bytes(stub, hook).subrange(8, 12),
        ) == hook + 7,
        stub_bytes(stub, hook).len() == STUB_LEN,
        stub + 7 + signed_le32(stub_bytes(stub, hook).subrange(3, 7)) == stub + STUB_DATA_START,
        stub_bytes(stub, hook).subrange(STUB_DATA_START as int, STUB_LEN as int) == stub_vector(),
        stub_bytes(stub, hook)[7] == crate::opcodes::JMP_REL32,
        in_rel32_range(stub + 12, hook + HOOK_LEN) ==> branch_target(
            stub + 7,
            stub_bytes(stub, hook).subrange(7, 12),
        ) == hook + HOOK_LEN,
{
    let s = stub_bytes(stub, hook);
    lemma_signed_le32_roundtrip(STUB_LOAD_DISP);
    assert(s.subrange(3, 7) =~= le32(STUB_LOAD_DISP as u32));
    assert(s.subrange(7, 12) =~= jmp_bytes(stub + 7, hook + HOOK_LEN));
    assert(s.subrange(STUB_DATA_START as int, STUB_LEN as int) =~= stub_vector());
    assert(s.subrange(0, 7) =~= seq![0x0Fu8, 0x28u8, 0x35u8, 0x05u8, 0x00u8, 0x00u8, 0x00u8]);
    assert(s.subrange(12, 28) =~= seq![
        0x00u8, 0x00u8, 0x00u8, 0x00u8,
        0x00u8, 0x00u8, 0xFAu8, 0xC4u8,
        0x00u8, 0x00u8, 0x00u8, 0x00u8,
        0x00u8, 0x00u8, 0x80u8, 0x3Fu8,
    ]);
    assert(s.subrange(8, 12) =~= s.subrange(7, 12).subrange(1, 5));
    if in_rel32_range(stub + 12, hook + HOOK_LEN) {
        lemma_jmp_lands(stub + 7, hook + HOOK_LEN);
    }
}

/// The hook covers exactly the hooked instruction, and, when the stub is
/// within rel32 reach, its jump lands on the stub.
pub proof fn lemma_hook_layout(hook: int, stub: int)
    ensures
        hook_bytes(hook, stub).len() == 7,
        hook_bytes(hook, stub)[0] == 0xE9u8,
        hook_bytes(hook, stub)[5] == 0x90u8,
        hook_bytes(hook, stub)[6] == 0x90u8,
        hook_site_original() == seq![0x0Fu8, 0x28u8, 0xB1u8, 0x70u8, 0x01u8, 0x00u8, 0x00u8],
        -0x8000_0000 <= stub - (hook + 5) < 0x8000_0000 ==> hook + 5 + signed_le32(
            hook_bytes(hook, stub).subrange(1, 5),
        ) == stub,
        hook_bytes(hook, stub).len() == HOOK_LEN,
        hook_site_original().len() == HOOK_LEN,
        hook_bytes(hook, stub)[0] == crate::opcodes::JMP_REL32,
        hook_bytes(hook, stub)[5] == NOP,
        hook_bytes(hook, stub)[6] == NOP,
        in_rel32_range(hook + 5, stub) ==> branch_target(hook, hook_bytes(hook, stub)) == stub,
{
    let h = hook_bytes(hook, stub);
    assert(h.subrange(1, 5) =~= jmp_bytes(hook, stub).subrange(1, 5));
    if in_rel32_range(hook + 5, stub) {
        lemma_jmp_lands(hook, stub);
    }
}


/// Removing the hook by writing the hooked instruction back restores the
/// memory exactly as it was before the hook was installed.
pub proof fn lemma_unhook_restores(mem: Seq<u8>, hook: int, stub: int)
    requires
        fits(mem, hook, HOOK_LEN as int),
        read_at(mem, hook, HOOK_LEN as int) == hook_site_original(),
    ensures
        write_at(write_at(mem, hook, hook_bytes(hook, stub)), hook, hook_site_original()) == mem,
{
    lemma_hook_layout(hook, stub);
    lemma_restore_undoes_patch(mem, hook, hook_site_original(), hook_bytes(hook, stub));
}

} // verus!
