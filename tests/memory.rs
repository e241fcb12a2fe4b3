use mos6502::memory::{combine_bytes, split_word, Memory, Ram};

#[test]
fn test_read_write() {
    let mut ram = Ram::new();
    ram.write(0xff6c, 0xcc); // write an 8-bit value to 0xff6c
    ram.write_u16(0xff00, 0xff6c); // write a 16-bit value to 0xff00
    let address = ram.read_u16(0xff00); // read the address from 0xff00
    let value = ram.read(address); // read the value from 0xff6c
    assert_eq!(address, 0xff6c, "Address {:#x}", address);
    assert_eq!(value, 0xcc, "Value: {:#x}", value);
}

#[test]
fn new_ram_is_zero_filled() {
    let ram = Ram::new();
    assert_eq!(ram.read(0x0000), 0);
    assert_eq!(ram.read(0x1234), 0);
    assert_eq!(ram.read(0xffff), 0);
    assert_eq!(ram.read_u16(0xfffe), 0);
}

#[test]
fn byte_round_trip() {
    let mut ram = Ram::new();
    for &(a, v) in &[(0x0000u16, 0x01u8), (0x8000, 0x7f), (0xffff, 0xff), (0x1234, 0x00)] {
        ram.write(a, v);
        assert_eq!(ram.read(a), v);
    }
}

#[test]
fn byte_write_leaves_neighbours() {
    let mut ram = Ram::new();
    ram.write(0x4000, 0x11);
    ram.write(0x4001, 0x22);
    ram.write(0x3fff, 0x33);
    assert_eq!(ram.read(0x4000), 0x11);
    assert_eq!(ram.read(0x4001), 0x22);
    assert_eq!(ram.read(0x3fff), 0x33);
}

#[test]
fn word_round_trip() {
    let mut ram = Ram::new();
    for &(a, v) in &[(0x0000u16, 0x0000u16), (0x0200, 0xbeef), (0x7ffe, 0x00ff), (0xfffe, 0xff00)] {
        ram.write_u16(a, v);
        assert_eq!(ram.read_u16(a), v);
    }
}

#[test]
fn word_round_trip_wraps_at_top() {
    let mut ram = Ram::new();
    ram.write_u16(0xffff, 0x1234);
    assert_eq!(ram.read(0xffff), 0x34);
    assert_eq!(ram.read(0x0000), 0x12);
    assert_eq!(ram.read_u16(0xffff), 0x1234);
}

#[test]
fn word_is_little_endian() {
    let mut ram = Ram::new();
    ram.write_u16(0x0300, 0xabcd);
    assert_eq!(ram.read(0x0300), 0xcd);
    assert_eq!(ram.read(0x0301), 0xab);
    assert_eq!(ram.read(0x02ff), 0x00);
    assert_eq!(ram.read(0x0302), 0x00);
}

#[test]
fn word_read_assembles_bytes() {
    let mut ram = Ram::new();
    ram.write(0x0010, 0x34);
    ram.write(0x0011, 0x12);
    assert_eq!(ram.read_u16(0x0010), 0x1234);
    ram.write(0xffff, 0x78);
    ram.write(0x0000, 0x56);
    assert_eq!(ram.read_u16(0xffff), 0x5678);
}

#[test]
fn combine_and_split_bytes() {
    assert_eq!(combine_bytes(0x6c, 0xff), 0xff6c);
    assert_eq!(combine_bytes(0x00, 0x01), 0x0100);
    assert_eq!(combine_bytes(0xff, 0x00), 0x00ff);
    assert_eq!(split_word(0xabcd), (0xcd, 0xab));
    assert_eq!(split_word(0xff6c), (0x6c, 0xff));
    assert_eq!(split_word(0x00ff), (0xff, 0x00));
}
