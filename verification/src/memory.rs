//! Executable memory for the fall-damage stub, from the `region` crate.
use vstd::prelude::*;
use region::Allocation;
use crate::error::{error_text, PatchError};

verus! {

/// A block of pages owned by the process; freed when dropped.
#[verifier::external_type_specification]
#[verifier::external_body]
pub struct ExAllocation(region::Allocation);

/// A failure reported by the `region` crate.
#[verifier::external_type_specification]
#[verifier::external_body]
pub struct ExRegionError(region::Error);

/// The kinds of access allowed on a block of pages.
#[derive(PartialEq, Eq, Structural, Clone, Copy, Debug)]
pub struct PageAccess {
    pub read: bool,
    pub write: bool,
    pub execute: bool,
}

/// The protection bits of `region::Protection` for an access: read is bit
/// 0, write bit 1, execute bit 2.
pub open spec fn access_bits(a: PageAccess) -> usize {
    ((if a.read { 1usize } else { 0usize }) + (if a.write { 2usize } else { 0usize }) + (if a.execute {
        4usize
    } else {
        0usize
    })) as usize
}

impl PageAccess {
    /// Read, write and execute access.
    pub open spec fn read_write_execute_spec() -> PageAccess {
        PageAccess { read: true, write: true, execute: true }
    }

    /// Pages that may be read, written and executed.
    pub fn read_write_execute() -> (r: PageAccess)
        ensures
            r == PageAccess::read_write_execute_spec(),
            access_bits(r) == 7,
    {
        PageAccess { read: true, write: true, execute: true }
    }

    /// The access whose protection bits are `bits` (below 8).
    pub fn from_bits(bits: usize) -> (r: PageAccess)
        requires
            bits < 8,
        ensures
            access_bits(r) == bits,
    {
        PageAccess { read: bits % 2 == 1, write: (bits / 2) % 2 == 1, execute: bits / 4 == 1 }
    }

    /// The protection bits of this access.
    pub fn bits(&self) -> (b: usize)
        ensures
            b == access_bits(*self),
    {
        let mut b: usize = 0;
        if self.read {
            b = b + 1;
        }
        if self.write {
            b = b + 2;
        }
        if self.execute {
            b = b + 4;
        }
        b
    }
}

/// A block of pages allocated for the library, with a length in bytes that
/// covers the size asked for, and the access whose protection was requested
/// for it.
pub struct Pages {
    pub allocation: Allocation,
    pub len: usize,
    pub access: PageAccess,
}

/// Calls `region::alloc` for `size` bytes with the protection
/// `Protection::from_bits_truncate(bits)`, and gives back the allocation, its
/// length (`Allocation::len`) and the bits of the protection it was requested
/// with (`Protection::bits`). `from_bits_truncate` keeps the three low bits;
/// on Windows, `region` panics for the write-only protection, which
/// `requires` leaves out. Its source returns `Error::InvalidParameter` when
/// `size` is zero, and otherwise rounds `size` up to whole pages before
/// asking the operating system, so a granted block spans at least `size`
/// bytes; that rounding cannot fall short unless the size is within a page of
/// `usize::MAX`, which the third clause leaves out. Whether the system grants
/// the block is not claimed, nor that the length is that of the allocation.
#[verifier::external_body]
fn region_alloc(size: usize, bits: usize) -> (r: Result<(Allocation, usize, usize), region::Error>)
    requires
        bits % 8 != 2,
    ensures
        size == 0 ==> r is Err,
        r matches Ok((_a, _n, b)) ==> b == bits % 8,
        size <= isize::MAX ==> (r matches Ok((_a, n, _b)) ==> n >= size),
{
    let protection = region::Protection::from_bits_truncate(bits);
    match region::alloc(size, protection) {
        Ok(a) => {
            let n = a.len();
            Ok((a, n, protection.bits()))
        },
        Err(e) => Err(e),
    }
}

/// The debug text of a `region::Error` (`format!("{:?}", e)`); nothing is
/// claimed of its contents.
#[verifier::external_body]
fn region_error_text(e: &region::Error) -> String {
    format!("{:?}", e)
}

/// Allocates `size` bytes (rounded up to whole pages) of memory that may be
/// read, written and executed. On failure the text is
/// `"Failed to allocate memory: "` followed by the debug text of the system's
/// error.
pub fn allocate_memory(size: usize) -> (r: Result<Pages, String>)
    ensures
        size == 0 ==> r is Err,
        r matches Ok(p) ==> p.access == PageAccess::read_write_execute_spec(),
        size <= isize::MAX ==> (r matches Ok(p) ==> p.len >= size),
        r matches Err(m) ==> exists|detail: String|
            m@ == error_text(PatchError::Allocation { detail }),
{
    let requested = PageAccess::read_write_execute();
    match region_alloc(size, requested.bits()) {
        Ok((allocation, len, granted_bits)) => {
            let access = PageAccess::from_bits(granted_bits);
            Ok(Pages { allocation, len, access })
        },
        Err(e) => {
            let detail = region_error_text(&e);
            let err = PatchError::Allocation { detail };
            let m = err.message();
            Err(m)
        },
    }
}

/// Releases an allocation; dropping it does the same.
pub fn free_memory(alloc: Allocation) {
    let _released = alloc;
}

} // verus!
