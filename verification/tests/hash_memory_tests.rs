use test_generator::hash_memory::HashMemory;

#[test]
fn test_read_bus16_aligned() {
    let mut mem = HashMemory::new();
    mem.write_u8(0x100, 0x34);
    mem.write_u8(0x101, 0x12);
    assert_eq!(mem.read_bus16(0x100), 0x1234);
}

#[test]
fn test_read_bus16_unaligned() {
    let mut mem = HashMemory::new();
    mem.write_u8(0x100, 0x78);
    mem.write_u8(0x101, 0x56);
    // Should mask to 0x100
    assert_eq!(mem.read_bus16(0x101), 0x5678);
}

#[test]
fn test_write_bus16_full_word() {
    let mut mem = HashMemory::new();
    mem.write_bus16(0x200, true, 0xBEEF);
    assert_eq!(mem.read_u16(0x200), 0xBEEF);
}

#[test]
fn test_bus_readback_aligned() {
    let mut mem = HashMemory::new();
    mem.write_bus16(0x200, true, 0xBEEF);
    assert_eq!(mem.read_bus16(0x200), 0xBEEF);
}

#[test]
fn test_bus_readback_unaligned1() {
    let mut mem = HashMemory::new();
    mem.write_bus16(0x200, true, 0xBEEF);
    assert_eq!(mem.read_bus16(0x201), 0xBEEF);
}

#[test]
fn test_bus_readback_unaligned2() {
    let mut mem = HashMemory::new();
    mem.write_bus16(0x07CC0F, true, 0x5700);
    assert_eq!(mem.read_bus16(0x07CC0F), 0x5700);
}

#[test]
fn read_after_write_u8_and_other_address() {
    let mut mem = HashMemory::new();
    mem.write_u8(0x10, 0xAB);
    assert_eq!(mem.read_u8(0x10), 0xAB);
    assert_eq!(mem.read_u8(0x11), 0x00);
}

#[test]
fn uninit_byte_reads_back_for_unwritten() {
    let mut mem = HashMemory::new();
    mem.set_uninit_byte(0xCC);
    assert_eq!(mem.read_u8(0x1234), 0xCC);
    mem.write_u8(0x1234, 0x01);
    assert_eq!(mem.read_u8(0x1234), 0x01);
    mem.clear();
    assert_eq!(mem.read_u8(0x1234), 0xCC);
}

#[test]
fn u16_and_u32_round_trip_little_endian() {
    let mut mem = HashMemory::new();
    mem.write_u16(0x300, 0x1234);
    assert_eq!(mem.read_u8(0x300), 0x34);
    assert_eq!(mem.read_u8(0x301), 0x12);
    assert_eq!(mem.read_u16(0x300), 0x1234);
    mem.write_u32(0x400, 0xDEADBEEF);
    assert_eq!(mem.read_u8(0x400), 0xEF);
    assert_eq!(mem.read_u8(0x403), 0xDE);
    assert_eq!(mem.read_u32(0x400), 0xDEADBEEF);
}

#[test]
fn bus_write_byte_lanes() {
    // Even address without BHE writes only the low byte.
    let mut mem = HashMemory::new();
    mem.write_u16(0x500, 0xAAAA);
    mem.write_bus16(0x500, false, 0x1234);
    assert_eq!(mem.read_u16(0x500), 0xAA34);
    // Odd address with BHE writes only the high byte of the even word.
    mem.write_bus16(0x501, true, 0x5678);
    assert_eq!(mem.read_u16(0x500), 0x5634);
    // Odd address without BHE is a refresh cycle: nothing written.
    mem.write_bus16(0x501, false, 0xFFFF);
    assert_eq!(mem.read_u16(0x500), 0x5634);
}
