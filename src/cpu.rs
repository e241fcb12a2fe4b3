//! The processor core: a status register and a handle on a memory store
//! that other holders may share. The core is itself a `Memory`, each of its
//! byte accesses taken under the store's lock.

use std::sync::Arc;
use vstd::prelude::*;
use vstd::rwlock::RwLock;
use vstd::rwlock::RwLockPredicate;

use crate::memory::combine_bytes;
use crate::memory::high_byte;
use crate::memory::low_byte;
use crate::memory::next_address;
use crate::memory::split_word;
use crate::memory::word_of;
use crate::memory::wrote_byte;
use crate::memory::Memory;
use crate::status::default_flags;
use crate::status::StatusFlags;
use crate::status::StatusRegister;

verus! {

/// What a store behind the lock satisfies: while the lock is held nobody
/// else writes to it, so it behaves as a stable store.
pub struct StableStore;

impl<M: Memory> RwLockPredicate<M> for StableStore {
    open spec fn inv(self, store: M) -> bool {
        store.is_stable()
    }
}

/// A memory store shared between holders, reads under shared access and
/// writes under exclusive access, each for one byte access only.
///
/// The lock cannot be poisoned: acquiring it waits until it is free. A
/// store whose `read` or `write` panics while the lock is held leaves the
/// lock held, and every later access through any holder then waits forever;
/// such a panic is fatal to every user of the shared store.
pub type SharedMemory<M> = Arc<RwLock<M, StableStore>>;

/// Puts a stable store behind a lock so that it can be shared.
///
/// Only a stable store can be put there: one whose bytes change through its
/// own writes alone. A processor core is not one (another holder of its
/// store may write between two of its calls), so a core cannot itself be
/// shared behind a second lock; share the store it wraps instead.
pub fn share<M: Memory>(store: M) -> (r: SharedMemory<M>)
    requires
        store.is_stable(),
{
    Arc::new(RwLock::new(store, Ghost(StableStore)))
}

/// A MOS 6502 processor core.
pub struct MOS6502<M: Memory> {
    /// The memory store, shared with whoever else holds it.
    memory_controller: SharedMemory<M>,
    /// The processor status register.
    status: StatusRegister,
}

impl<M: Memory> MOS6502<M> {
    /// The store handle that the core holds.
    pub closed spec fn controller(&self) -> SharedMemory<M> {
        self.memory_controller
    }

    /// The status register of the core.
    pub closed spec fn spec_status(&self) -> StatusRegister {
        self.status
    }

    /// A core bound to the shared store, with the default status flags.
    pub fn new(controller: SharedMemory<M>) -> (r: Self)
        ensures
            r.controller() == controller,
            r.spec_status()@ == default_flags(),
    {
        MOS6502 { memory_controller: controller.clone(), status: StatusFlags::new() }
    }

    /// Reads a byte of the store, under shared access for this one read.
    /// The byte is the one at `address` in the store as the lock held it.
    pub fn read_byte(&self, address: u16) -> (r: u8)
        ensures
            exists|s: M| #[trigger] self.controller().inv(s) && r == s.byte_at(address),
    {
        let handle = self.memory_controller.acquire_read();
        let r = handle.borrow().read(address);
        proof {
            let s = handle.view();
            assert(self.controller().inv(s));
        }
        handle.release_read();
        r
    }

    /// Writes a byte of the store, under exclusive access for this one
    /// write. The store's own `write` is called with `address` and `value`:
    /// the store goes from a state the lock held to the state that holds
    /// `value` at `address` and is otherwise unchanged. The core itself is
    /// left as it was.
    pub fn write_byte(&mut self, address: u16, value: u8)
        ensures
            final(self).controller() == old(self).controller(),
            final(self).spec_status() == old(self).spec_status(),
            exists|before: M, after: M|
                #[trigger] old(self).controller().inv(before) && #[trigger] old(
                    self,
                ).controller().inv(after) && wrote_byte(before, after, address, value),
    {
        let (mut store, handle) = self.memory_controller.acquire_write();
        let ghost before = store;
        store.write(address, value);
        proof {
            assert(self.controller().inv(before));
            assert(self.controller().inv(store));
            assert(wrote_byte(before, store, address, value));
        }
        handle.release_write(store);
    }

    /// The status register, for the instruction logic to inspect.
    pub fn status(&self) -> (r: StatusRegister)
        ensures
            r == self.spec_status(),
    {
        self.status
    }

    /// Replaces the status register.
    pub fn set_status(&mut self, status: StatusRegister)
        ensures
            final(self).spec_status() == status,
            final(self).controller() == old(self).controller(),
    {
        self.status = status;
    }
}

impl<M: Memory> Memory for MOS6502<M> {
    /// A core has no byte model of its own: the store it reads is shared.
    closed spec fn byte_at(&self, address: u16) -> u8 {
        arbitrary()
    }

    /// Other holders of the store may write between two calls of the core.
    closed spec fn is_stable(&self) -> bool {
        false
    }

    /// The byte at `address` in the store, as the lock held it.
    fn read(&self, address: u16) -> (r: u8)
        ensures
            exists|s: M| #[trigger] self.controller().inv(s) && r == s.byte_at(address),
    {
        self.read_byte(address)
    }

    /// Writes `value` at `address` in the store; the core keeps its handle
    /// and its status register.
    fn write(&mut self, address: u16, value: u8)
        ensures
            final(self).controller() == old(self).controller(),
            final(self).spec_status() == old(self).spec_status(),
            exists|before: M, after: M|
                #[trigger] old(self).controller().inv(before) && #[trigger] old(
                    self,
                ).controller().inv(after) && wrote_byte(before, after, address, value),
    {
        self.write_byte(address, value)
    }

    /// Reads the low byte at `address` and the high byte at the next
    /// address by two separate reads of the store. Another holder may write
    /// in between, so the two bytes may come from two states of the store.
    fn read_u16(&self, address: u16) -> (r: u16)
        ensures
            exists|s1: M, s2: M|
                #[trigger] self.controller().inv(s1) && #[trigger] self.controller().inv(s2)
                    && r == word_of(s1.byte_at(address), s2.byte_at(next_address(address))),
    {
        let low = self.read_byte(address);
        let high = self.read_byte(address.wrapping_add(1));
        let r = combine_bytes(low, high);
        proof {
            let s1 = choose|s: M| #[trigger] self.controller().inv(s) && low == s.byte_at(address);
            let s2 = choose|s: M| #[trigger] self.controller().inv(s) && high == s.byte_at(
                next_address(address),
            );
            assert(self.controller().inv(s1) && self.controller().inv(s2));
        }
        r
    }

    /// Writes the low byte of `value` at `address` and its high byte at the
    /// next address by two separate writes of the store, each under its own
    /// exclusive access; the core keeps its handle and its status register.
    fn write_u16(&mut self, address: u16, value: u16)
        ensures
            final(self).controller() == old(self).controller(),
            final(self).spec_status() == old(self).spec_status(),
            exists|before: M, after: M|
                #[trigger] old(self).controller().inv(before) && #[trigger] old(
                    self,
                ).controller().inv(after) && wrote_byte(before, after, address, low_byte(value)),
            exists|before: M, after: M|
                #[trigger] old(self).controller().inv(before) && #[trigger] old(
                    self,
                ).controller().inv(after) && wrote_byte(
                    before,
                    after,
                    next_address(address),
                    high_byte(value),
                ),
    {
        let (low, high) = split_word(value);
        self.write_byte(address, low);
        self.write_byte(address.wrapping_add(1), high);
    }
}

} // verus!
