//! Byte patches for a game executable: the patch tables, the checks that
//! guard every write, the x86 encodings of the injected jumps, the texts of
//! the errors, and the decisions taken when the patch library is loaded or
//! unloaded.
pub mod opcodes;
pub mod encoding;
pub mod hex;
pub mod error;
pub mod patch;
pub mod patch_run;
pub mod fall_damage;
pub mod hook;
pub mod mods;
pub mod dll;
pub mod memory;
