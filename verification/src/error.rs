//! What can go wrong while patching, and the text reported for each case.
use vstd::prelude::*;
use crate::hex::{hex_list, hex_upper, push_hex, push_hex_list};

verus! {

/// A failed patch step.
#[derive(Debug)]
pub enum PatchError {
    /// The executable's module handle could not be obtained; `detail` is the
    /// system's description of the failure.
    BaseModule { detail: String },
    /// The bytes at `offset` are not the ones the patch was written for.
    BytesMismatch { offset: usize, expected: Vec<u8>, found: Vec<u8> },
    /// The code page could not be made writable before patching.
    Protection { detail: String },
    /// The code page could not be made writable before restoring.
    RestoreProtection { detail: String },
    /// No executable memory could be allocated.
    Allocation { detail: String },
    /// The instruction at the fall-damage hook site is not the expected one.
    HookMismatch { found: Vec<u8> },
}

/// The text reported for an error.
pub open spec fn error_text(e: PatchError) -> Seq<char> {
    match e {
        PatchError::BaseModule { detail } => "Failed to get base module: "@ + detail@,
        PatchError::BytesMismatch { offset, expected, found } =>
            "Bytes didn't match in offset 0x"@ + hex_upper(offset as nat) + "! Expected: "@
                + hex_list(expected@) + ", Founded: "@ + hex_list(found@),
        PatchError::Protection { detail } => "Failed to change protection: "@ + detail@,
        PatchError::RestoreProtection { detail } => "Falha ao mudar proteção: "@ + detail@,
        PatchError::Allocation { detail } => "Failed to allocate memory: "@ + detail@,
        PatchError::HookMismatch { found } => "Bytes não correspondem! Encontrado: "@ + hex_list(found@),
    }
}

impl PatchError {
    /// The text reported for this error.
    pub fn message(&self) -> (r: String)
        ensures
            r@ == error_text(*self),
    {
        let mut out = String::new();
        match self {
            PatchError::BaseModule { detail } => {
                out.append("Failed to get base module: ");
                out.append(detail.as_str());
            },
            PatchError::BytesMismatch { offset, expected, found } => {
                out.append("Bytes didn't match in offset 0x");
                push_hex(&mut out, *offset);
                out.append("! Expected: ");
                push_hex_list(&mut out, expected.as_slice());
                out.append(", Founded: ");
                push_hex_list(&mut out, found.as_slice());
            },
            PatchError::Protection { detail } => {
                out.append("Failed to change protection: ");
                out.append(detail.as_str());
            },
            PatchError::RestoreProtection { detail } => {
                out.append("Falha ao mudar proteção: ");
                out.append(detail.as_str());
            },
            PatchError::Allocation { detail } => {
                out.append("Failed to allocate memory: ");
                out.append(detail.as_str());
            },
            PatchError::HookMismatch { found } => {
                out.append("Bytes não correspondem! Encontrado: ");
                push_hex_list(&mut out, found.as_slice());
            },
        }
        assert(out@ =~= error_text(*self));
        out
    }
}

} // verus!
