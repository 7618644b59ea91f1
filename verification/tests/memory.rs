use lib::MemoryBus;

#[test]
fn new_memory_is_zero() {
    let m = MemoryBus::new();
    assert_eq!(m.read_byte(0), 0);
    assert_eq!(m.read_byte(0x8000), 0);
    assert_eq!(m.read_byte(0xFFFF), 0);
}

#[test]
fn write_then_read() {
    let mut m = MemoryBus::new();
    m.write_byte(0x1234, 0xAB);
    m.write_byte(0xFFFF, 0x77);
    assert_eq!(m.read_byte(0x1234), 0xAB);
    assert_eq!(m.read_byte(0xFFFF), 0x77);
    assert_eq!(m.read_byte(0x1235), 0);
    m.write_byte(0x1234, 0x01);
    assert_eq!(m.read_byte(0x1234), 0x01);
}

#[test]
fn read_word_is_little_endian() {
    let mut m = MemoryBus::new();
    m.write_byte(0x0100, 0x34);
    m.write_byte(0x0101, 0x12);
    assert_eq!(m.read_word(0x0100), 0x1234);
    m.write_byte(0xFFFE, 0xCD);
    assert_eq!(m.read_word(0xFFFE), 0x00CD);
}
