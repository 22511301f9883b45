use souls_patch::encoding::{encode_jmp, i32_le_bytes, rel32_displacement, u32_le_bytes};

fn jump_destination(at: usize, instr: &[u8]) -> i128 {
    let d = i32::from_le_bytes([instr[1], instr[2], instr[3], instr[4]]);
    at as i128 + 5 + d as i128
}

#[test]
fn u32_bytes_are_little_endian() {
    assert_eq!(u32_le_bytes(0x1234_5678), [0x78, 0x56, 0x34, 0x12]);
    assert_eq!(u32_le_bytes(0), [0, 0, 0, 0]);
    assert_eq!(u32_le_bytes(u32::MAX), [0xFF; 4]);
}

#[test]
fn i32_bytes_are_twos_complement() {
    assert_eq!(i32_le_bytes(-1), [0xFF; 4]);
    assert_eq!(i32_le_bytes(5), [5, 0, 0, 0]);
    assert_eq!(i32_le_bytes(i32::MIN), [0, 0, 0, 0x80]);
    for v in [0i32, 1, -2, 0x7FFF_FFFF, -0x1234_5678] {
        assert_eq!(i32::from_le_bytes(i32_le_bytes(v)), v);
    }
}

#[test]
fn displacement_forward_and_backward() {
    assert_eq!(rel32_displacement(0x1000, 0x2000), 0x1000);
    assert_eq!(rel32_displacement(0x2000, 0x1000), -0x1000);
    assert_eq!(rel32_displacement(7, 7), 0);
}

#[test]
fn displacement_wraps_to_32_bits() {
    if usize::BITS == 64 {
        let far = (1usize << 32) + 5;
        assert_eq!(rel32_displacement(0, far), 5);
    }
}

#[test]
fn jmp_encoding_exact() {
    assert_eq!(encode_jmp(0x1000, 0x2000), vec![0xE9, 0xFB, 0x0F, 0x00, 0x00]);
    assert_eq!(encode_jmp(0x2000, 0x1000), vec![0xE9, 0xFB, 0xEF, 0xFF, 0xFF]);
}

#[test]
fn jmp_lands_on_target() {
    for (at, target) in [(0x1000usize, 0x2000usize), (0x7FF6_0000, 0x7FF5_FF00), (10, 15)] {
        let j = encode_jmp(at, target);
        assert_eq!(j.len(), 5);
        assert_eq!(j[0], 0xE9);
        assert_eq!(jump_destination(at, &j), target as i128);
    }
}
