//! The patch tables of the individual mods.
use vstd::prelude::*;
use crate::opcodes::{ADDSS_OPCODE, ADDSS_XMM, CALL_REL32, MOV_EDX_EBX, NOP, REG_EBX, REG_EDX_EDX, REG_XMM6_XMM6, REP, SSE_PREFIX, XORPS_OPCODE, XOR_EDX_EDX};
use crate::patch::Patch;

verus! {

/// Offset of the durability-loss `mov edx, ebx`.
pub const DURABILITY_OFFSET: usize = 0x58bfe4;
/// Offset of the equip-load `addss xmm6, xmm0`.
pub const EQUIP_LOAD_OFFSET: usize = 0x583a5d;
/// Offset of the first call that takes the souls away on death.
pub const SOULS_LOSS_OFFSET: usize = 0x4948ae;
/// Offset of the second call that takes the souls away on death.
pub const SOULS_LOSS_OFFSET_ALT: usize = 0x486531;

/// The durability patch: `mov edx, ebx` becomes `xor edx, edx`, so the
/// durability lost is always zero.
pub open spec fn durability_spec() -> (usize, Seq<u8>, Seq<u8>) {
    (DURABILITY_OFFSET, seq![MOV_EDX_EBX, REG_EBX], seq![XOR_EDX_EDX, REG_EDX_EDX])
}

/// The equip-load patch: `addss xmm6, xmm0` becomes `xorps xmm6, xmm6; nop`,
/// so the summed equip load is zero.
pub open spec fn equip_load_spec() -> (usize, Seq<u8>, Seq<u8>) {
    (EQUIP_LOAD_OFFSET, seq![REP, ADDSS_XMM, ADDSS_OPCODE, 0xF0u8], seq![SSE_PREFIX, XORPS_OPCODE, REG_XMM6_XMM6, NOP])
}

/// The two souls-loss patches: both `call` instructions become five `nop`.
pub open spec fn souls_loss_spec() -> Seq<(usize, Seq<u8>, Seq<u8>)> {
    seq![
        (SOULS_LOSS_OFFSET, seq![CALL_REL32, 0x2du8, 0xb9u8, 0xfbu8, 0xffu8], seq![NOP, NOP, NOP, NOP, NOP]),
        (SOULS_LOSS_OFFSET_ALT, seq![CALL_REL32, 0x1au8, 0xbcu8, 0x04u8, 0x00u8], seq![NOP, NOP, NOP, NOP, NOP]),
    ]
}

/// The fields of a patch, as plain values.
pub open spec fn patch_fields(p: Patch) -> (usize, Seq<u8>, Seq<u8>) {
    (p.offset, p.original@, p.patched@)
}

/// The patch that removes durability damage.
pub fn no_durability_damage() -> (p: Patch)
    ensures
        patch_fields(p) == durability_spec(),
        p.original@.len() == p.patched@.len(),
{
    let p = Patch {
        offset: DURABILITY_OFFSET,
        original: vec![MOV_EDX_EBX, REG_EBX],
        patched: vec![XOR_EDX_EDX, REG_EDX_EDX],
    };
    assert(p.original@ =~= durability_spec().1);
    assert(p.patched@ =~= durability_spec().2);
    p
}

/// The patch that removes equip load.
pub fn no_equip_load() -> (p: Patch)
    ensures
        patch_fields(p) == equip_load_spec(),
        p.original@.len() == p.patched@.len(),
{
    let p = Patch {
        offset: EQUIP_LOAD_OFFSET,
        original: vec![REP, ADDSS_XMM, ADDSS_OPCODE, 0xF0],
        patched: vec![SSE_PREFIX, XORPS_OPCODE, REG_XMM6_XMM6, NOP],
    };
    assert(p.original@ =~= equip_load_spec().1);
    assert(p.patched@ =~= equip_load_spec().2);
    p
}

/// The patches that keep the souls on death, in the order they are applied.
pub fn no_souls_loss() -> (ps: Vec<Patch>)
    ensures
        ps@.len() == 2,
        forall|i: int| 0 <= i < 2 ==> #[trigger] patch_fields(ps@[i]) == souls_loss_spec()[i],
        forall|i: int| 0 <= i < 2 ==> #[trigger] ps@[i].original@.len() == ps@[i].patched@.len(),
{
    let first = Patch {
        offset: SOULS_LOSS_OFFSET,
        original: vec![CALL_REL32, 0x2d, 0xb9, 0xfb, 0xff],
        patched: vec![NOP, NOP, NOP, NOP, NOP],
    };
    let second = Patch {
        offset: SOULS_LOSS_OFFSET_ALT,
        original: vec![CALL_REL32, 0x1a, 0xbc, 0x04, 0x00],
        patched: vec![NOP, NOP, NOP, NOP, NOP],
    };
    assert(first.original@ =~= souls_loss_spec()[0].1);
    assert(first.patched@ =~= souls_loss_spec()[0].2);
    assert(second.original@ =~= souls_loss_spec()[1].1);
    assert(second.patched@ =~= souls_loss_spec()[1].2);
    let mut ps: Vec<Patch> = Vec::new();
    ps.push(first);
    ps.push(second);
    ps
}

/// The patch tables: each replaces instruction bytes by bytes of the same
/// length, and their places and bytes are these.
pub proof fn lemma_patch_tables()
    ensures
        durability_spec() == (0x58bfe4usize, seq![0x8Bu8, 0xD3u8], seq![0x33u8, 0xD2u8]),
        equip_load_spec() == (
            0x583a5dusize,
            seq![0xF3u8, 0x0Fu8, 0x58u8, 0xF0u8],
            seq![0x0Fu8, 0x57u8, 0xF6u8, 0x90u8],
        ),
        souls_loss_spec().len() == 2,
        souls_loss_spec()[0] == (
            0x4948aeusize,
            seq![0xE8u8, 0x2du8, 0xb9u8, 0xfbu8, 0xffu8],
            seq![0x90u8, 0x90u8, 0x90u8, 0x90u8, 0x90u8],
        ),
        souls_loss_spec()[1] == (
            0x486531usize,
            seq![0xE8u8, 0x1au8, 0xbcu8, 0x04u8, 0x00u8],
            seq![0x90u8, 0x90u8, 0x90u8, 0x90u8, 0x90u8],
        ),
{
    assert(durability_spec().1 =~= seq![0x8Bu8, 0xD3u8]);
    assert(durability_spec().2 =~= seq![0x33u8, 0xD2u8]);
    assert(equip_load_spec().1 =~= seq![0xF3u8, 0x0Fu8, 0x58u8, 0xF0u8]);
    assert(equip_load_spec().2 =~= seq![0x0Fu8, 0x57u8, 0xF6u8, 0x90u8]);
    assert(souls_loss_spec()[0].1 =~= seq![0xE8u8, 0x2du8, 0xb9u8, 0xfbu8, 0xffu8]);
    assert(souls_loss_spec()[0].2 =~= seq![0x90u8, 0x90u8, 0x90u8, 0x90u8, 0x90u8]);
    assert(souls_loss_spec()[1].1 =~= seq![0xE8u8, 0x1au8, 0xbcu8, 0x04u8, 0x00u8]);
    assert(souls_loss_spec()[1].2 =~= seq![0x90u8, 0x90u8, 0x90u8, 0x90u8, 0x90u8]);
}

} // verus!
