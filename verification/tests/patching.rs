use souls_patch::error::PatchError;
use souls_patch::hex::{push_hex, push_hex_byte, push_hex_list};
use souls_patch::patch::{bytes_equal, check_original, write_bytes};

#[test]
fn hex_numbers_have_no_leading_zeros() {
    for (n, text) in [(0usize, "0"), (9, "9"), (10, "A"), (15, "F"), (16, "10"), (0x58bfe4, "58BFE4"), (0x9C83CA, "9C83CA")] {
        let mut s = String::new();
        push_hex(&mut s, n);
        assert_eq!(s, text);
        assert_eq!(s, format!("{:X}", n));
    }
}

#[test]
fn hex_bytes_have_two_digits() {
    let mut s = String::from("x");
    push_hex_byte(&mut s, 0x05);
    push_hex_byte(&mut s, 0xAB);
    assert_eq!(s, "x05AB");
}

#[test]
fn hex_lists_match_debug_output() {
    let cases: [&[u8]; 4] = [&[], &[0x0F], &[0x8B, 0xD3], &[0xE8, 0x2d, 0xb9, 0xfb, 0xff]];
    for bs in cases {
        let mut s = String::new();
        push_hex_list(&mut s, bs);
        assert_eq!(s, format!("{:02X?}", bs));
    }
    let mut s = String::new();
    push_hex_list(&mut s, &[0x8B, 0xD3]);
    assert_eq!(s, "[8B, D3]");
}

#[test]
fn equal_bytes() {
    assert!(bytes_equal(&[1, 2, 3], &[1, 2, 3]));
    assert!(bytes_equal(&[], &[]));
    assert!(!bytes_equal(&[1, 2, 3], &[1, 2, 4]));
    assert!(!bytes_equal(&[1, 2], &[1, 2, 3]));
}

#[test]
fn check_accepts_expected_bytes() {
    assert!(check_original(0x58bfe4, &[0x8B, 0xD3], &[0x8B, 0xD3]).is_ok());
}

#[test]
fn check_reports_mismatch() {
    let e = check_original(0x58bfe4, &[0x8B, 0xD3], &[0x33, 0xD2]).unwrap_err();
    match &e {
        PatchError::BytesMismatch { offset, expected, found } => {
            assert_eq!(*offset, 0x58bfe4);
            assert_eq!(expected, &vec![0x8B, 0xD3]);
            assert_eq!(found, &vec![0x33, 0xD2]);
        }
        _ => panic!("wrong error"),
    }
    assert_eq!(
        e.message(),
        "Bytes didn't match in offset 0x58BFE4! Expected: [8B, D3], Founded: [33, D2]"
    );
}

#[test]
fn check_reports_short_read() {
    let e = check_original(0x10, &[1, 2, 3], &[1, 2]).unwrap_err();
    assert_eq!(e.message(), "Bytes didn't match in offset 0x10! Expected: [01, 02, 03], Founded: [01, 02]");
}

#[test]
fn messages_of_every_error() {
    let detail = || String::from("Os { code: 5 }");
    assert_eq!(PatchError::BaseModule { detail: detail() }.message(), "Failed to get base module: Os { code: 5 }");
    assert_eq!(PatchError::Protection { detail: detail() }.message(), "Failed to change protection: Os { code: 5 }");
    assert_eq!(PatchError::RestoreProtection { detail: detail() }.message(), "Falha ao mudar proteção: Os { code: 5 }");
    assert_eq!(PatchError::Allocation { detail: detail() }.message(), "Failed to allocate memory: Os { code: 5 }");
    assert_eq!(
        PatchError::HookMismatch { found: vec![0x0F, 0x28, 0xB1] }.message(),
        "Bytes não correspondem! Encontrado: [0F, 28, B1]"
    );
}

#[test]
fn write_replaces_prefix_only() {
    let mut mem = [1u8, 2, 3, 4, 5];
    write_bytes(&mut mem, &[9, 8]);
    assert_eq!(mem, [9, 8, 3, 4, 5]);
    write_bytes(&mut mem, &[]);
    assert_eq!(mem, [9, 8, 3, 4, 5]);
    write_bytes(&mut mem[3..], &[7, 7]);
    assert_eq!(mem, [9, 8, 3, 7, 7]);
}

#[test]
fn restore_undoes_patch() {
    let before = [0x55u8, 0x8B, 0xD3, 0xC3];
    let mut mem = before;
    check_original(1, &[0x8B, 0xD3], &mem[1..3]).unwrap();
    write_bytes(&mut mem[1..], &[0x33, 0xD2]);
    assert_eq!(mem, [0x55, 0x33, 0xD2, 0xC3]);
    write_bytes(&mut mem[1..], &[0x8B, 0xD3]);
    assert_eq!(mem, before);
}

#[test]
fn patch_applies_once() {
    let mut mem = [0x8Bu8, 0xD3];
    assert!(check_original(0, &[0x8B, 0xD3], &mem).is_ok());
    write_bytes(&mut mem, &[0x33, 0xD2]);
    assert!(check_original(0, &[0x8B, 0xD3], &mem).is_err());
}
