//! The memory contract of a 16-bit address space of bytes, with the
//! little-endian 16-bit accesses derived from the byte accesses.

use vstd::prelude::*;

verus! {

/// The address after `address`, wrapping from 0xFFFF to 0x0000.
pub open spec fn next_address(address: u16) -> u16 {
    ((address as int + 1) % 0x10000) as u16
}

/// The 16-bit value whose low byte is `low` and high byte is `high`.
pub open spec fn word_of(low: u8, high: u8) -> u16 {
    (low as int + 0x100 * high as int) as u16
}

/// The low byte of a 16-bit value.
pub open spec fn low_byte(value: u16) -> u8 {
    (value as int % 0x100) as u8
}

/// The high byte of a 16-bit value.
pub open spec fn high_byte(value: u16) -> u8 {
    (value as int / 0x100) as u8
}

/// `after` holds `value` at `address` and the bytes of `before` elsewhere:
/// what `Memory::write` ensures of a stable store.
pub open spec fn wrote_byte<M: Memory>(before: M, after: M, address: u16, value: u8) -> bool {
    forall|b: u16|
        #[trigger] after.byte_at(b) == if b == address {
            value
        } else {
            before.byte_at(b)
        }
}

/// `after` holds the low byte of `value` at `address`, its high byte at the
/// next address, and the bytes of `before` elsewhere: what
/// `Memory::write_u16` ensures of a stable store.
pub open spec fn wrote_word<M: Memory>(before: M, after: M, address: u16, value: u16) -> bool {
    forall|b: u16|
        #[trigger] after.byte_at(b) == if b == address {
            low_byte(value)
        } else if b == next_address(address) {
            high_byte(value)
        } else {
            before.byte_at(b)
        }
}

/// Anything that can be read and written as 65536 bytes, one per 16-bit
/// address. Every address is valid.
///
/// A store is modelled by the byte it holds at each address. A store is
/// *stable* when its bytes change only through its own `write` calls; for
/// such a store reads return the modelled bytes and writes update them. A
/// store shared with other holders is not stable: another holder may write
/// between two of its calls, so nothing is promised of what it reads.
pub trait Memory: Sized {
    /// The byte held at `address`.
    spec fn byte_at(&self, address: u16) -> u8;

    /// Whether the bytes change only through this value's own writes.
    spec fn is_stable(&self) -> bool;

    /// Reads the byte at `address`.
    fn read(&self, address: u16) -> (r: u8)
        ensures
            self.is_stable() ==> r == self.byte_at(address),
    ;

    /// Writes `value` at `address`, leaving every other address as it was.
    fn write(&mut self, address: u16, value: u8)
        ensures
            final(self).is_stable() == old(self).is_stable(),
            old(self).is_stable() ==> forall|b: u16|
                #[trigger] final(self).byte_at(b) == if b == address {
                    value
                } else {
                    old(self).byte_at(b)
                },
    ;

    /// Reads the little-endian 16-bit value whose low byte is at `address`
    /// and whose high byte is at the next address (wrapping after 0xFFFF).
    /// The two bytes are read by two separate calls of `read`.
    fn read_u16(&self, address: u16) -> (r: u16)
        ensures
            self.is_stable() ==> r == word_of(
                self.byte_at(address),
                self.byte_at(next_address(address)),
            ),
    {
        let low = self.read(address);
        let high = self.read(address.wrapping_add(1));
        combine_bytes(low, high)
    }

    /// Writes `value` little-endian: its low byte at `address` and its high
    /// byte at the next address (wrapping after 0xFFFF), by two separate
    /// calls of `write`. Every other address keeps its byte.
    fn write_u16(&mut self, address: u16, value: u16)
        ensures
            final(self).is_stable() == old(self).is_stable(),
            old(self).is_stable() ==> forall|b: u16|
                #[trigger] final(self).byte_at(b) == if b == address {
                    low_byte(value)
                } else if b == next_address(address) {
                    high_byte(value)
                } else {
                    old(self).byte_at(b)
                },
    {
        let (low, high) = split_word(value);
        self.write(address, low);
        self.write(address.wrapping_add(1), high);
    }
}

/// Assembles a little-endian 16-bit value: `low | (high << 8)`.
pub fn combine_bytes(low: u8, high: u8) -> (r: u16)
    ensures
        r == word_of(low, high),
        low_byte(r) == low,
        high_byte(r) == high,
{
    let l = low as u16;
    let h = high as u16;
    assert((h << 8u16) | l == l + 256 * h) by (bit_vector)
        requires
            l < 256,
            h < 256,
    ;
    (h << 8u16) | l
}

/// Splits a 16-bit value into its low byte and its high byte
/// (`value >> 8`).
pub fn split_word(value: u16) -> (r: (u8, u8))
    ensures
        r.0 == low_byte(value),
        r.1 == high_byte(value),
        word_of(r.0, r.1) == value,
{
    assert(value >> 8u16 == value / 256 && value & 0xffu16 == value % 256) by (bit_vector);
    ((value & 0xff) as u8, (value >> 8) as u8)
}

/// A byte written to a stable store is the byte then held at its address,
/// and so the byte that a `read` there returns; other addresses keep theirs.
pub proof fn lemma_byte_round_trip<M: Memory>(before: M, after: M, address: u16, value: u8)
    requires
        wrote_byte(before, after, address, value),
    ensures
        after.byte_at(address) == value,
        forall|b: u16| b != address ==> #[trigger] after.byte_at(b) == before.byte_at(b),
{
    assert(after.byte_at(address) == value);
}

/// The two addresses of a 16-bit access are distinct, also at 0xFFFF,
/// whose next address is 0x0000.
pub proof fn lemma_next_address(address: u16)
    ensures
        next_address(address) != address,
        address == 0xFFFF ==> next_address(address) == 0,
        address < 0xFFFF ==> next_address(address) == address + 1,
{
}

/// A 16-bit value is made of its low and high bytes.
pub proof fn lemma_word_of_bytes(value: u16)
    ensures
        word_of(low_byte(value), high_byte(value)) == value,
{
}

/// A 16-bit value written to a stable store is the value that a 16-bit
/// read at the same address assembles, for every address including 0xFFFF,
/// whose high byte wraps to 0x0000.
pub proof fn lemma_word_round_trip<M: Memory>(before: M, after: M, address: u16, value: u16)
    requires
        wrote_word(before, after, address, value),
    ensures
        word_of(after.byte_at(address), after.byte_at(next_address(address))) == value,
{
    lemma_next_address(address);
    lemma_word_of_bytes(value);
    assert(after.byte_at(address) == low_byte(value));
    assert(after.byte_at(next_address(address)) == high_byte(value));
}

/// A 16-bit write lays its value out little-endian: after writing 0xABCD
/// at `address`, the byte there is 0xCD and the byte at the next address is
/// 0xAB.
pub proof fn lemma_little_endian<M: Memory>(before: M, after: M, address: u16)
    requires
        wrote_word(before, after, address, 0xABCD),
    ensures
        after.byte_at(address) == 0xCD,
        after.byte_at(next_address(address)) == 0xAB,
{
    lemma_next_address(address);
    assert(after.byte_at(address) == low_byte(0xABCD));
    assert(after.byte_at(next_address(address)) == high_byte(0xABCD));
}

/// Random-access memory: 65536 bytes held in an array.
pub struct Ram {
    memory: [u8; 65536],
}

impl Ram {
    /// A memory whose every byte is zero.
    pub fn new() -> (r: Ram)
        ensures
            forall|a: u16| #[trigger] r.byte_at(a) == 0,
    {
        Ram { memory: [0u8; 65536] }
    }
}

impl Memory for Ram {
    closed spec fn byte_at(&self, address: u16) -> u8 {
        self.memory@[address as int]
    }

    open spec fn is_stable(&self) -> bool {
        true
    }

    fn read(&self, address: u16) -> (r: u8) {
        self.memory[address as usize]
    }

    fn write(&mut self, address: u16, value: u8) {
        self.memory[address as usize] = value;
    }
}

} // verus!
