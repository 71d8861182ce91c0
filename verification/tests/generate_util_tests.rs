use rand::{Rng, SeedableRng};
use test_generator::enums::{AddressSize, SegmentSize};
use test_generator::generate_util::{
    adjust_flags_u16, adjust_flags_u32, branch_target, mask_far_branch32, near_branch16_banned,
    near_branch32_banned, shape_modrm, slice_contains_i32, MNEMONIC_IRET, MNEMONIC_IRETD,
    MNEMONIC_POPF, MNEMONIC_POPFD,
};
use test_generator::instruction::has_sib;
use test_generator::registers::{Registers, RemoteCpuRegistersV1};

fn regs() -> Registers {
    Registers::V1(RemoteCpuRegistersV1 {
        ax: 0,
        bx: 0,
        cx: 0,
        dx: 0,
        ss: 0x1000,
        cs: 0,
        ds: 0,
        es: 0,
        sp: 0xFFFE,
        bp: 0,
        si: 0,
        di: 0,
        ip: 0,
        flags: 2,
    })
}

#[test]
fn popf_flags_come_from_the_test_seed() {
    let seed = 0x1234_5678_9ABC_DEF0u64;
    let mut rng = rand::rngs::StdRng::seed_from_u64(seed);
    let expected = rng.random::<u16>() & (Registers::POP_FLAGS_MASK as u16);
    let (addr, bytes) = adjust_flags_u16(MNEMONIC_POPF, seed, &regs()).unwrap();
    assert_eq!(addr, 0x1FFFE);
    assert_eq!(bytes, expected.to_le_bytes().to_vec());
    // The trap flag (bit 8) is never loaded.
    assert_eq!(u16::from_le_bytes([bytes[0], bytes[1]]) & 0x0100, 0);
}

#[test]
fn iret_flags_go_past_ip_and_cs() {
    let (addr, _) = adjust_flags_u16(MNEMONIC_IRET, 7, &regs()).unwrap();
    // SP + 4 wraps at 16 bits: 0xFFFE + 4 = 0x0002.
    assert_eq!(addr, 0x10002);
    let (addr32, bytes32) = adjust_flags_u32(MNEMONIC_IRETD, 7, &regs()).unwrap();
    assert_eq!(addr32, 0x10006);
    let mut rng = rand::rngs::StdRng::seed_from_u64(7);
    let expected = rng.random::<u32>() & Registers::POP_FLAGS_MASK;
    assert_eq!(bytes32, expected.to_le_bytes().to_vec());
    let (popfd_addr, _) = adjust_flags_u32(MNEMONIC_POPFD, 7, &regs()).unwrap();
    assert_eq!(popfd_addr, 0x1FFFE);
    assert!(adjust_flags_u16(0, 7, &regs()).is_none());
    assert!(adjust_flags_u32(MNEMONIC_POPF, 7, &regs()).is_none());
}

#[test]
fn different_seeds_give_flags_images_of_their_own() {
    let a = adjust_flags_u32(MNEMONIC_POPFD, 1, &regs()).unwrap().1;
    let mut rng = rand::rngs::StdRng::seed_from_u64(1);
    let first = rng.random::<u32>() & Registers::POP_FLAGS_MASK;
    assert_eq!(a, first.to_le_bytes().to_vec());
    let _ = SegmentSize::Sixteen;
}

#[test]
fn branches() {
    assert_eq!(branch_target(0x100, 2, -4), 0xFE);
    assert_eq!(branch_target(0xFFFF_FFFF, 1, 0), 0);
    assert!(near_branch16_banned(0x0105, 0x0100, &[5]));
    assert!(near_branch16_banned(0x00FE, 0x0100, &[-2]));
    assert!(!near_branch16_banned(0x0106, 0x0100, &[5]));
    assert!(near_branch32_banned(0x2_0000, 0x100, 0xFFFF, &[]));
    assert!(near_branch32_banned(0x108, 0x100, 0xFFFF, &[8]));
    assert!(!near_branch32_banned(0x108, 0x100, 0xFFFF, &[7]));
    assert_eq!(mask_far_branch32(0x1234_5678), 0x5678);
    assert!(slice_contains_i32(&[1, -1], -1));
    assert!(!slice_contains_i32(&[], 0));
}

#[test]
fn generated_modrm_shapes() {
    // Register form is kept as drawn.
    assert_eq!(shape_modrm(0xC5, AddressSize::ThirtyTwo, true, true, 0x01, None, 0xFF), 0xC5);
    // A SIB byte rolled for a memory form forces R/M 100.
    let m = shape_modrm(0x45, AddressSize::ThirtyTwo, true, true, 0x01, None, 0xFF);
    assert_eq!(m, 0x44);
    assert!(has_sib(m));
    // Without a SIB roll the R/M comes from the redraw.
    let m = shape_modrm(0x44, AddressSize::ThirtyTwo, true, false, 0x03, None, 0xFF);
    assert_eq!(m, 0x43);
    assert!(!has_sib(m));
    // 16-bit addressing never rolls SIB, but still redraws R/M.
    assert_eq!(shape_modrm(0x44, AddressSize::Sixteen, true, true, 0x06, None, 0xFF), 0x46);
    // Without SIB generation the byte is kept, then extension and mask apply.
    assert_eq!(shape_modrm(0x44, AddressSize::ThirtyTwo, false, true, 0x06, Some(7), 0xFF), 0x7C);
    assert_eq!(shape_modrm(0x44, AddressSize::ThirtyTwo, false, true, 0x06, None, 0x3F), 0x04);
}
