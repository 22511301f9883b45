use souls_patch::memory::{allocate_memory, free_memory, PageAccess};

#[test]
fn zero_size_is_refused() {
    let e = allocate_memory(0).err().unwrap();
    assert_eq!(e, "Failed to allocate memory: InvalidParameter(\"size\")");
}

#[test]
fn allocation_covers_request() {
    let p = allocate_memory(0x1000).unwrap();
    assert!(p.len >= 0x1000);
    assert_eq!(p.len, p.allocation.len());
    assert_eq!(p.access, PageAccess::read_write_execute());
    let small = allocate_memory(28).unwrap();
    assert!(small.len >= 28);
    assert_eq!(small.len, small.allocation.len());
    free_memory(p.allocation);
    drop(small);
}

#[test]
fn access_bits() {
    assert_eq!(PageAccess::read_write_execute().bits(), 7);
    assert_eq!(PageAccess { read: true, write: false, execute: true }.bits(), 5);
    assert_eq!(PageAccess { read: false, write: false, execute: false }.bits(), 0);
    assert_eq!(region::Protection::from_bits_truncate(7), region::Protection::READ_WRITE_EXECUTE);
}
