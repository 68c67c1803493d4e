//! The stable memory that durable structures live in, and its regions.
//!
//! A structure corrupts another that is opened on the same region. A region
//! is therefore a value of its own, which cannot be copied: the memory hands
//! each region out once, a structure takes its region over when it is opened
//! and gives it back when it is closed.

use ic_stable_structures::memory_manager::{MemoryId, MemoryManager, VirtualMemory};
use ic_stable_structures::DefaultMemoryImpl;
use vstd::array::array_fill_for_copy_types;
use vstd::prelude::*;

verus! {

/// The one region number that cannot be used: the memory manager marks
/// unallocated buckets with it.
pub const UNUSABLE_REGION: u8 = 255;

/// An `ic_stable_structures::memory_manager::MemoryManager` over
/// `DefaultMemoryImpl`: the process's stable memory, divided into numbered
/// regions.
#[verifier::external_body]
pub struct MemoryHandle {
    manager: MemoryManager<DefaultMemoryImpl>,
}

/// An `ic_stable_structures::memory_manager::VirtualMemory` over
/// `DefaultMemoryImpl`: one region of the stable memory. What it holds
/// outlives the process where the platform offers stable memory.
#[verifier::external_body]
pub struct StableRegion {
    pub(crate) memory: VirtualMemory<DefaultMemoryImpl>,
}

/// Calls `MemoryManager::init` on `DefaultMemoryImpl::default()`, which loads
/// the region table found in the memory or writes an empty one. Nothing is
/// claimed of the result. The call stops the process on a memory that carries
/// the manager's magic bytes with an unknown layout version.
#[verifier::external_body]
fn open_default_memory() -> MemoryHandle {
    MemoryHandle { manager: MemoryManager::init(DefaultMemoryImpl::default()) }
}

/// Calls `MemoryManager::get` with `MemoryId::new(id)`: a handle on the
/// region of that number. Nothing is claimed of the result. `MemoryId::new`
/// panics on 255, which the precondition rules out. Two handles on one region
/// let two structures corrupt each other: the one caller below hands each
/// number out once.
#[verifier::external_body]
fn region_handle(handle: &MemoryHandle, id: u8) -> StableRegion
    requires
        id != UNUSABLE_REGION,
{
    StableRegion { memory: handle.manager.get(MemoryId::new(id)) }
}

/// The process's stable memory, with a ledger of the regions it has handed
/// out.
pub struct StableMemory {
    handle: MemoryHandle,
    ledger: [bool; 256],
}

impl StableMemory {
    /// The numbers of the regions that were handed out.
    pub closed spec fn taken(&self) -> Set<u8> {
        Set::new(|id: u8| self.ledger@[id as int])
    }

    /// Opens the process's stable memory, with no region handed out yet. A
    /// process opens its stable memory once.
    pub fn open() -> (memory: StableMemory)
        ensures
            memory.taken() == Set::<u8>::empty(),
    {
        let ledger: [bool; 256] = array_fill_for_copy_types(false);
        let memory = StableMemory { handle: open_default_memory(), ledger };
        assert(memory.taken() =~= Set::<u8>::empty());
        memory
    }

    /// Hands out the region of the given number, once: a number that cannot
    /// be used, or whose region was handed out before, gets none.
    pub fn region(&mut self, id: u8) -> (region: Option<StableRegion>)
        ensures
            region is Some <==> id != UNUSABLE_REGION && !old(self).taken().contains(id),
            region is Some ==> final(self).taken() == old(self).taken().insert(id),
            region is None ==> final(self).taken() == old(self).taken(),
    {
        if id == UNUSABLE_REGION || self.ledger[id as usize] {
            return None;
        }
        self.ledger[id as usize] = true;
        assert(self.taken() =~= old(self).taken().insert(id));
        Some(region_handle(&self.handle, id))
    }
}

} // verus!
