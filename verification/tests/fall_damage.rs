use souls_patch::fall_damage::{
    build_hook, build_stub, check_hook_site, hook_site_bytes, F32_MINUS_2000_BITS, F32_ONE_BITS,
    F32_ZERO_BITS, HOOK_LEN, HOOK_OFFSET, STUB_DATA_START, STUB_LEN,
};
use souls_patch::error::PatchError;
use souls_patch::patch::write_bytes;

fn field(b: &[u8], at: usize) -> i32 {
    i32::from_le_bytes([b[at], b[at + 1], b[at + 2], b[at + 3]])
}

#[test]
fn vector_bit_patterns() {
    assert_eq!(f32::from_bits(F32_ZERO_BITS), 0.0f32);
    assert_eq!(f32::from_bits(F32_MINUS_2000_BITS), -2000.0f32);
    assert_eq!(f32::from_bits(F32_ONE_BITS), 1.0f32);
}

#[test]
fn hook_site_is_movups() {
    assert_eq!(HOOK_OFFSET, 0x9C83CA);
    assert_eq!(hook_site_bytes(), vec![0x0F, 0x28, 0xB1, 0x70, 0x01, 0x00, 0x00]);
    assert!(check_hook_site(&[0x0F, 0x28, 0xB1, 0x70, 0x01, 0x00, 0x00]).is_ok());
}

#[test]
fn hook_site_mismatch() {
    let found = [0xE9, 0x00, 0x10, 0x00, 0x00, 0x90, 0x90];
    let e = check_hook_site(&found).unwrap_err();
    match &e {
        PatchError::HookMismatch { found: f } => assert_eq!(f, &found.to_vec()),
        _ => panic!("wrong error"),
    }
    assert_eq!(e.message(), "Bytes não correspondem! Encontrado: [E9, 00, 10, 00, 00, 90, 90]");
}

#[test]
fn stub_exact_bytes() {
    let stub = build_stub(0x1000, 0x5000);
    assert_eq!(stub.len(), STUB_LEN);
    let back: i32 = 0x5007 - 0x100C;
    let b = back.to_le_bytes();
    let expected: Vec<u8> = vec![
        0x0F, 0x28, 0x35, 0x05, 0x00, 0x00, 0x00,
        0xE9, b[0], b[1], b[2], b[3],
        0x00, 0x00, 0x00, 0x00,
        0x00, 0x00, 0xFA, 0xC4,
        0x00, 0x00, 0x00, 0x00,
        0x00, 0x00, 0x80, 0x3F,
    ];
    assert_eq!(stub, expected);
}

#[test]
fn stub_loads_its_vector_and_returns() {
    let (stub_at, hook_at) = (0x7FF6_1000_0000usize, 0x7FF6_2040_0000usize);
    let stub = build_stub(stub_at, hook_at);
    assert_eq!(7 + field(&stub, 3) as usize, STUB_DATA_START);
    let lanes: Vec<f32> = (0..4).map(|i| f32::from_le_bytes([
        stub[12 + 4 * i], stub[13 + 4 * i], stub[14 + 4 * i], stub[15 + 4 * i],
    ])).collect();
    assert_eq!(lanes, vec![0.0, -2000.0, 0.0, 1.0]);
    assert_eq!(stub[7], 0xE9);
    assert_eq!((stub_at + 12) as i128 + field(&stub, 8) as i128, (hook_at + HOOK_LEN) as i128);
}

#[test]
fn hook_jumps_to_stub() {
    let (hook_at, stub_at) = (0x1_4000_0000usize, 0x1_3000_0000usize);
    let hook = build_hook(hook_at, stub_at);
    assert_eq!(hook.len(), HOOK_LEN);
    assert_eq!(hook[0], 0xE9);
    assert_eq!(&hook[5..], &[0x90, 0x90]);
    assert_eq!((hook_at + 5) as i128 + field(&hook, 1) as i128, stub_at as i128);
}

#[test]
fn unhook_restores_site() {
    let mut mem = vec![0xCCu8; 3];
    mem.extend_from_slice(&hook_site_bytes());
    mem.push(0xC3);
    let before = mem.clone();
    let hook = build_hook(0x1003, 0x9000);
    write_bytes(&mut mem[3..], &hook);
    assert_eq!(&mem[3..10], &hook[..]);
    assert!(check_hook_site(&mem[3..10]).is_err());
    write_bytes(&mut mem[3..], &hook_site_bytes());
    assert_eq!(mem, before);
}
