use mos6502::status::{StatusFlags, StatusRegister};

const ALL: [StatusFlags; 8] = [
    StatusFlags::Carry,
    StatusFlags::Zero,
    StatusFlags::Interrupt,
    StatusFlags::Decimal,
    StatusFlags::Break,
    StatusFlags::UNK,
    StatusFlags::Overflow,
    StatusFlags::Negative,
];

#[test]
fn test_status() {
    let mut status = StatusFlags::new();
    status.insert(StatusFlags::Carry);
    assert!(status.contains(StatusFlags::Carry));
    assert!(status.contains(StatusFlags::UNK));
}

#[test]
fn default_flags_are_unk_and_interrupt() {
    let status = StatusFlags::new();
    assert_eq!(status.bits(), 0b0010_0100);
    for f in ALL {
        let expected = f == StatusFlags::UNK || f == StatusFlags::Interrupt;
        assert_eq!(status.contains(f), expected);
    }
}

#[test]
fn flag_bits_are_distinct_single_bits() {
    let expected: [u8; 8] = [0x01, 0x02, 0x04, 0x08, 0x10, 0x20, 0x40, 0x80];
    for (i, f) in ALL.iter().enumerate() {
        assert_eq!(f.bit(), expected[i]);
        assert_eq!(f.position(), i as u8);
    }
}

#[test]
fn insert_sets_only_that_flag() {
    for f1 in ALL {
        let mut status = StatusRegister::from_bits(0);
        status.insert(f1);
        for f2 in ALL {
            assert_eq!(status.contains(f2), f1 == f2);
        }
    }
}

#[test]
fn remove_after_insert_clears_only_that_flag() {
    for f1 in ALL {
        let mut status = StatusRegister::from_bits(0b0101_1010);
        let before = status;
        status.insert(f1);
        status.remove(f1);
        assert!(!status.contains(f1));
        for f2 in ALL {
            if f2 != f1 {
                assert_eq!(status.contains(f2), before.contains(f2));
            }
        }
    }
}

#[test]
fn insert_and_remove_are_idempotent() {
    for f in ALL {
        let mut once = StatusFlags::new();
        once.insert(f);
        let mut twice = StatusFlags::new();
        twice.insert(f);
        twice.insert(f);
        assert_eq!(once, twice);
        let mut once = StatusRegister::from_bits(0xff);
        once.remove(f);
        let mut twice = StatusRegister::from_bits(0xff);
        twice.remove(f);
        twice.remove(f);
        assert_eq!(once, twice);
    }
}

#[test]
fn every_byte_is_a_register() {
    for b in 0..=255u8 {
        let status = StatusRegister::from_bits(b);
        assert_eq!(status.bits(), b);
        for f in ALL {
            assert_eq!(status.contains(f), b & f.bit() != 0);
        }
    }
}

#[test]
fn remove_then_insert_on_full_and_empty() {
    let mut status = StatusRegister::from_bits(0xff);
    status.remove(StatusFlags::Negative);
    assert_eq!(status.bits(), 0x7f);
    status.remove(StatusFlags::Carry);
    assert_eq!(status.bits(), 0x7e);
    status.insert(StatusFlags::Negative);
    assert_eq!(status.bits(), 0xfe);
}
