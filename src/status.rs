//! The processor status register: eight named condition flags packed into
//! one byte, one bit per flag.

use vstd::prelude::*;

verus! {

/// A single condition flag of the status register.
#[derive(Copy, Clone, Debug, PartialEq, Eq, Structural)]
pub enum StatusFlags {
    Carry,
    Zero,
    Interrupt,
    Decimal,
    Break,
    UNK,
    Overflow,
    Negative,
}

/// The bit position of a flag inside the status byte.
pub open spec fn flag_position(f: StatusFlags) -> u8 {
    match f {
        StatusFlags::Carry => 0,
        StatusFlags::Zero => 1,
        StatusFlags::Interrupt => 2,
        StatusFlags::Decimal => 3,
        StatusFlags::Break => 4,
        StatusFlags::UNK => 5,
        StatusFlags::Overflow => 6,
        StatusFlags::Negative => 7,
    }
}

/// The single-bit mask of a flag inside the status byte.
pub open spec fn flag_mask(f: StatusFlags) -> u8 {
    1u8 << flag_position(f)
}

/// The set of flags that a status byte holds.
pub open spec fn flags_of(bits: u8) -> Set<StatusFlags> {
    Set::new(|f: StatusFlags| bits & flag_mask(f) != 0)
}

/// The flags enabled in a freshly built register.
pub open spec fn default_flags() -> Set<StatusFlags> {
    set![StatusFlags::UNK, StatusFlags::Interrupt]
}

proof fn lemma_position_injective(f: StatusFlags, g: StatusFlags)
    ensures
        flag_position(f) < 8,
        flag_position(f) == flag_position(g) <==> f == g,
{
}

proof fn lemma_set_bit(bits: u8, f: StatusFlags, g: StatusFlags)
    ensures
        ((bits | flag_mask(f)) & flag_mask(g) != 0) == (bits & flag_mask(g) != 0 || f == g),
{
    lemma_position_injective(f, g);
    lemma_position_injective(g, f);
    let i = flag_position(f);
    let j = flag_position(g);
    assert(i < 8 && j < 8 ==> (((bits | (1u8 << i)) & (1u8 << j) != 0) == ((bits & (1u8 << j))
        != 0 || i == j))) by (bit_vector);
}

proof fn lemma_clear_bit(bits: u8, f: StatusFlags, g: StatusFlags)
    ensures
        ((bits & !flag_mask(f)) & flag_mask(g) != 0) == (bits & flag_mask(g) != 0 && f != g),
{
    lemma_position_injective(f, g);
    lemma_position_injective(g, f);
    let i = flag_position(f);
    let j = flag_position(g);
    assert(i < 8 && j < 8 ==> (((bits & !(1u8 << i)) & (1u8 << j) != 0) == ((bits & (1u8 << j))
        != 0 && i != j))) by (bit_vector);
}

impl StatusFlags {
    /// The bit position of this flag inside the status byte.
    pub fn position(self) -> (r: u8)
        ensures
            r == flag_position(self),
    {
        match self {
            StatusFlags::Carry => 0,
            StatusFlags::Zero => 1,
            StatusFlags::Interrupt => 2,
            StatusFlags::Decimal => 3,
            StatusFlags::Break => 4,
            StatusFlags::UNK => 5,
            StatusFlags::Overflow => 6,
            StatusFlags::Negative => 7,
        }
    }

    /// The single-bit mask of this flag inside the status byte.
    pub fn bit(self) -> (r: u8)
        ensures
            r == flag_mask(self),
    {
        let p = self.position();
        proof {
            lemma_position_injective(self, self);
        }
        1u8 << p
    }

    /// A status register holding the default flags, `UNK` and `Interrupt`.
    pub fn new() -> (r: StatusRegister)
        ensures
            r@ == default_flags(),
    {
        let bits: u8 = StatusFlags::UNK.bit() | StatusFlags::Interrupt.bit();
        let r = StatusRegister { bits };
        proof {
            assert forall|f: StatusFlags| r@.contains(f) <==> default_flags().contains(f) by {
                lemma_set_bit(flag_mask(StatusFlags::UNK), StatusFlags::Interrupt, f);
                lemma_set_bit(0u8, StatusFlags::UNK, f);
                let u = flag_mask(StatusFlags::UNK);
                let m = flag_mask(f);
                assert(0u8 | u == u && 0u8 & m == 0) by (bit_vector);
            }
            assert(r@ =~= default_flags());
        }
        r
    }
}

/// The status register: a set of flags held as one byte. Every byte is a
/// valid register, so the type has no invariant beyond its field.
#[derive(Copy, Clone, Debug, PartialEq, Eq, Structural)]
pub struct StatusRegister {
    bits: u8,
}

impl View for StatusRegister {
    type V = Set<StatusFlags>;

    open spec fn view(&self) -> Set<StatusFlags> {
        flags_of(self.spec_bits())
    }
}

impl StatusRegister {
    /// The register encoded as one byte.
    pub closed spec fn spec_bits(&self) -> u8 {
        self.bits
    }

    /// The byte that encodes this register, one bit per flag.
    pub fn bits(&self) -> (r: u8)
        ensures
            r == self.spec_bits(),
            flags_of(r) == self@,
    {
        self.bits
    }

    /// The register that a byte encodes; every byte is valid.
    pub fn from_bits(bits: u8) -> (r: StatusRegister)
        ensures
            r.spec_bits() == bits,
            r@ == flags_of(bits),
    {
        StatusRegister { bits }
    }

    /// Whether the flag is set.
    pub fn contains(&self, flag: StatusFlags) -> (r: bool)
        ensures
            r == self@.contains(flag),
    {
        self.bits & flag.bit() != 0
    }

    /// Sets the flag, leaving every other flag as it was.
    pub fn insert(&mut self, flag: StatusFlags)
        ensures
            final(self)@ == old(self)@.insert(flag),
    {
        let old_bits = self.bits;
        self.bits = self.bits | flag.bit();
        proof {
            assert forall|g: StatusFlags| final(self)@.contains(g) <==> old(self)@.insert(
                flag,
            ).contains(g) by {
                lemma_set_bit(old_bits, flag, g);
            }
            assert(final(self)@ =~= old(self)@.insert(flag));
        }
    }

    /// Clears the flag, leaving every other flag as it was.
    pub fn remove(&mut self, flag: StatusFlags)
        ensures
            final(self)@ == old(self)@.remove(flag),
    {
        let old_bits = self.bits;
        self.bits = self.bits & !flag.bit();
        proof {
            assert forall|g: StatusFlags| final(self)@.contains(g) <==> old(self)@.remove(
                flag,
            ).contains(g) by {
                lemma_clear_bit(old_bits, flag, g);
            }
            assert(final(self)@ =~= old(self)@.remove(flag));
        }
    }
}

/// Setting one flag never sets another, and clearing a flag just set
/// clears it while every other flag keeps the value it had before both.
pub proof fn lemma_flag_independence(flags: Set<StatusFlags>, f1: StatusFlags, f2: StatusFlags)
    requires
        f1 != f2,
    ensures
        flags.insert(f1).contains(f2) == flags.contains(f2),
        !flags.insert(f1).remove(f1).contains(f1),
        forall|g: StatusFlags|
            g != f1 ==> #[trigger] flags.insert(f1).remove(f1).contains(g) == flags.contains(g),
{
}

/// Setting a flag twice leaves the register as setting it once does, and
/// likewise for clearing it.
pub proof fn lemma_flag_idempotence(flags: Set<StatusFlags>, f: StatusFlags)
    ensures
        flags.insert(f).insert(f) == flags.insert(f),
        flags.remove(f).remove(f) == flags.remove(f),
{
    assert(flags.insert(f).insert(f) =~= flags.insert(f));
    assert(flags.remove(f).remove(f) =~= flags.remove(f));
}

} // verus!
