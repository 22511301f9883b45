//! x86 opcode and ModRM bytes that the patches read and write.
use vstd::prelude::*;

verus! {

/// `mov r32, r/m32`.
pub const MOV_EDX_EBX: u8 = 0x8B;
/// ModRM byte selecting `edx, ebx`.
pub const REG_EBX: u8 = 0xD3;
/// `xor r32, r/m32`.
pub const XOR_EDX_EDX: u8 = 0x33;
/// ModRM byte selecting `edx, edx`.
pub const REG_EDX_EDX: u8 = 0xD2;
/// The `rep`/`F3` prefix that turns `0F 58` into `addss`.
pub const REP: u8 = 0xF3;
/// Two-byte opcode escape in front of `addss`.
pub const ADDSS_XMM: u8 = 0x0F;
/// Second opcode byte of `addss`.
pub const ADDSS_OPCODE: u8 = 0x58;
/// Two-byte opcode escape of the SSE instructions.
pub const SSE_PREFIX: u8 = 0x0F;
/// Second opcode byte of `xorps`.
pub const XORPS_OPCODE: u8 = 0x57;
/// ModRM byte selecting `xmm6, xmm6`.
pub const REG_XMM6_XMM6: u8 = 0xF6;
/// `nop`.
pub const NOP: u8 = 0x90;
/// `call rel32`.
pub const CALL_REL32: u8 = 0xE8;
/// `jmp rel32`.
pub const JMP_REL32: u8 = 0xE9;

} // verus!
