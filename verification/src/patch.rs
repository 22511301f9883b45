//! Guarded byte patches: a patch replaces a run of bytes of the executable
//! only where those bytes are still the ones it was written for.
use vstd::prelude::*;
use crate::error::PatchError;

verus! {

/// A patch: at `offset` from the executable's base, the bytes `original`
/// are replaced by `patched`.
pub struct Patch {
    pub offset: usize,
    pub original: Vec<u8>,
    pub patched: Vec<u8>,
}

/// Memory `mem` after `bytes` were written at index `at`.
pub open spec fn write_at(mem: Seq<u8>, at: int, bytes: Seq<u8>) -> Seq<u8> {
    mem.take(at) + bytes + mem.skip(at + bytes.len())
}

/// The `len` bytes of `mem` that start at index `at`.
pub open spec fn read_at(mem: Seq<u8>, at: int, len: int) -> Seq<u8> {
    mem.subrange(at, at + len)
}

/// Whether `len` bytes starting at `at` lie inside `mem`.
pub open spec fn fits(mem: Seq<u8>, at: int, len: int) -> bool {
    0 <= at && 0 <= len && at + len <= mem.len()
}

/// Whether two byte runs hold the same bytes.
pub fn bytes_equal(a: &[u8], b: &[u8]) -> (r: bool)
    ensures
        r == (a@ == b@),
{
    if a.len() != b.len() {
        return false;
    }
    let mut i: usize = 0;
    while i < a.len()
        invariant
            a@.len() == b@.len(),
            i <= a@.len(),
            forall|j: int| 0 <= j < i ==> a@[j] == b@[j],
        decreases a@.len() - i,
    {
        if a[i] != b[i] {
            assert(a@[i as int] != b@[i as int]);
            return false;
        }
        i = i + 1;
    }
    assert(a@ =~= b@);
    true
}

/// Checks that the bytes `found` at `offset` are the bytes `expected` that a
/// patch was written for; otherwise reports both.
pub fn check_original(offset: usize, expected: &[u8], found: &[u8]) -> (r: Result<(), PatchError>)
    ensures
        r is Ok <==> found@ == expected@,
        r matches Err(e) ==> e matches PatchError::BytesMismatch { offset: o, expected: x, found: f }
            && o == offset && x@ == expected@ && f@ == found@,
{
    if bytes_equal(found, expected) {
        Ok(())
    } else {
        Err(
            PatchError::BytesMismatch {
                offset,
                expected: vstd::slice::slice_to_vec(expected),
                found: vstd::slice::slice_to_vec(found),
            },
        )
    }
}

/// Copies `src` over the first `src.len()` bytes of `dst`.
pub fn write_bytes(dst: &mut [u8], src: &[u8])
    requires
        src@.len() <= old(dst)@.len(),
    ensures
        final(dst)@ == write_at(old(dst)@, 0, src@),
{
    let ghost before = dst@;
    let mut i: usize = 0;
    while i < src.len()
        invariant
            src@.len() <= before.len(),
            dst@.len() == before.len(),
            i <= src@.len(),
            forall|j: int| 0 <= j < i ==> dst@[j] == src@[j],
            forall|j: int| i <= j < before.len() ==> dst@[j] == before[j],
        decreases src@.len() - i,
    {
        dst[i] = src[i];
        i = i + 1;
    }
    assert(dst@ =~= write_at(before, 0, src@));
}

/// What is read back where bytes were written is what was written.
pub proof fn lemma_read_back(mem: Seq<u8>, at: int, bytes: Seq<u8>)
    requires
        fits(mem, at, bytes.len() as int),
    ensures
        write_at(mem, at, bytes).len() == mem.len(),
        read_at(write_at(mem, at, bytes), at, bytes.len() as int) == bytes,
        forall|i: int|
            0 <= i < mem.len() && !(at <= i < at + bytes.len()) ==> #[trigger] write_at(mem, at, bytes)[i]
                == mem[i],
{
    assert(read_at(write_at(mem, at, bytes), at, bytes.len() as int) =~= bytes);
}

/// A write leaves every byte run that does not overlap it as it was.
pub proof fn lemma_write_leaves_disjoint(mem: Seq<u8>, at: int, bytes: Seq<u8>, other: int, len: int)
    requires
        fits(mem, at, bytes.len() as int),
        fits(mem, other, len),
        other + len <= at || at + bytes.len() <= other,
    ensures
        read_at(write_at(mem, at, bytes), other, len) == read_at(mem, other, len),
{
    assert(read_at(write_at(mem, at, bytes), other, len) =~= read_at(mem, other, len));
}

/// Writing at the start of the window that begins at `at` is writing at
/// `at` in the whole memory: a patch written through a slice of the code
/// that starts at the patch's address changes the memory as `write_at` says.
pub proof fn lemma_write_in_window(mem: Seq<u8>, at: int, bytes: Seq<u8>)
    requires
        fits(mem, at, bytes.len() as int),
    ensures
        mem.take(at) + write_at(mem.skip(at), 0, bytes) == write_at(mem, at, bytes),
{
    assert(mem.take(at) + write_at(mem.skip(at), 0, bytes) =~= write_at(mem, at, bytes));
}

/// Writing back the original bytes over a patch of the same length restores
/// memory exactly as it was before the patch.
pub proof fn lemma_restore_undoes_patch(mem: Seq<u8>, at: int, original: Seq<u8>, patched: Seq<u8>)
    requires
        fits(mem, at, original.len() as int),
        read_at(mem, at, original.len() as int) == original,
        patched.len() == original.len(),
    ensures
        write_at(write_at(mem, at, patched), at, original) == mem,
{
    let once = write_at(mem, at, patched);
    lemma_read_back(mem, at, patched);
    assert(write_at(once, at, original) =~= mem);
}

/// Once a patch that changes something has been applied, the bytes at its
/// place no longer match its original bytes, so the guard refuses to apply
/// it a second time.
pub proof fn lemma_patch_applies_once(mem: Seq<u8>, at: int, original: Seq<u8>, patched: Seq<u8>)
    requires
        fits(mem, at, original.len() as int),
        patched.len() == original.len(),
        patched != original,
    ensures
        read_at(write_at(mem, at, patched), at, original.len() as int) != original,
{
    lemma_read_back(mem, at, patched);
}

} // verus!
