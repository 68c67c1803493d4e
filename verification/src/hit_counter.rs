//! A durable counter of requests.

use crate::memory::StableRegion;
use ic_stable_structures::memory_manager::VirtualMemory;
use ic_stable_structures::{Cell, DefaultMemoryImpl};
use vstd::prelude::*;

verus! {

/// An `ic_stable_structures::Cell` of one `u64` in a region of stable
/// memory.
#[verifier::external_body]
pub struct CounterCell {
    cell: Cell<u64, VirtualMemory<DefaultMemoryImpl>>,
}

/// The number a counter cell holds.
pub uninterp spec fn cell_value(cell: CounterCell) -> u64;

/// The number of the cell that the region holds, if it holds one: that of
/// the cell that was closed on it last.
pub uninterp spec fn region_number(region: StableRegion) -> Option<u64>;

/// Calls `Cell::init` on the region, with `initial` as the value of a cell
/// that is not there yet: a cell that comes back holds the number named for
/// the region, or `initial` where the region held no cell. The outside
/// error, an unknown layout version or a memory that cannot grow, becomes
/// `None`. `init` stops the process on a region that carries the cell's magic
/// bytes with a value that is not eight bytes long, which no call of this
/// library writes.
#[verifier::external_body]
fn cell_init(region: StableRegion, initial: u64) -> (cell: Option<CounterCell>)
    ensures
        match cell {
            Some(opened) => cell_value(opened) == match region_number(region) {
                Some(number) => number,
                None => initial,
            },
            None => true,
        },
{
    match Cell::init(region.memory, initial) {
        Ok(cell) => Some(CounterCell { cell }),
        Err(_) => None,
    }
}

/// Calls `Cell::into_memory`: the region the cell lives in. The cell writes
/// its value to the region whenever it takes one, so a cell opened on the
/// region afterwards holds what this one held.
#[verifier::external_body]
fn cell_close(cell: CounterCell) -> (region: StableRegion)
    ensures
        region_number(region) == Some(cell_value(cell)),
{
    StableRegion { memory: cell.cell.into_memory() }
}

/// Calls `Cell::get`: the value the cell holds.
#[verifier::external_body]
fn cell_get(cell: &CounterCell) -> (value: u64)
    ensures
        value == cell_value(*cell),
{
    *cell.cell.get()
}

/// Calls `Cell::set`. Where the memory takes the value, the cell holds it
/// afterwards and the value it held before is returned. Where the memory
/// cannot grow to take it, the outside error becomes `None` and the cell
/// holds what it held.
#[verifier::external_body]
fn cell_set(cell: &mut CounterCell, value: u64) -> (previous: Option<u64>)
    ensures
        match previous {
            Some(before) => before == cell_value(*old(cell)) && cell_value(*final(cell)) == value,
            None => cell_value(*final(cell)) == cell_value(*old(cell)),
        },
{
    cell.cell.set(value).ok()
}

/// Why the counter could not be advanced.
#[derive(Debug, Clone, Copy, PartialEq, Eq, Structural)]
pub enum CounterError {
    /// The counter stands at the largest number it can hold.
    Overflow,
    /// The stable memory refused the write.
    StorageFull,
}

/// The outcome of advancing a counter that stood at `current`, where
/// `written` is what the write of `current + 1` returned, if a write was
/// made.
pub open spec fn advanced(current: u64, written: Option<u64>) -> Result<u64, CounterError> {
    if current == u64::MAX {
        Err(CounterError::Overflow)
    } else if written is Some {
        Ok((current + 1) as u64)
    } else {
        Err(CounterError::StorageFull)
    }
}

/// Where a counter starts that is opened on a region in which `found` was
/// found.
pub open spec fn starting_number(found: Option<u64>) -> u64 {
    match found {
        Some(number) => number,
        None => 0,
    }
}

/// A counter that outlives the process. Its view is the number it stands
/// at.
pub struct HitCounter {
    cell: CounterCell,
}

impl View for HitCounter {
    type V = u64;

    closed spec fn view(&self) -> u64 {
        cell_value(self.cell)
    }
}

impl HitCounter {
    /// Opens the counter kept in the given region of stable memory, at the
    /// number an earlier counter left there, or at zero. `None` where the
    /// memory cannot be used for a counter.
    pub fn init(region: StableRegion) -> (counter: Option<HitCounter>)
        ensures
            counter is Some ==> counter->0@ == starting_number(region_number(region)),
    {
        HitCounter::holding(cell_init(region, 0))
    }

    /// Closes the counter and gives its region back. A counter opened on the
    /// region later stands where this one stood.
    pub fn close(self) -> (region: StableRegion)
        ensures
            region_number(region) == Some(self@),
    {
        cell_close(self.cell)
    }

    /// Closes the counter and opens it again, as a restart of the process
    /// does: a counter that comes back stands where it stood.
    pub fn reopen(self) -> (counter: Option<HitCounter>)
        ensures
            counter is Some ==> counter->0@ == self@,
    {
        HitCounter::init(self.close())
    }

    /// The number the counter stands at.
    pub fn get(&self) -> (value: u64)
        ensures
            value == self@,
    {
        cell_get(&self.cell)
    }

    /// Advances the counter by one and returns the number it then stands at.
    /// A counter at its largest number, or one whose write the memory
    /// refuses, stays as it is.
    pub fn increment(&mut self) -> (outcome: Result<u64, CounterError>)
        ensures
            match outcome {
                Ok(value) => old(self)@ < u64::MAX && value == old(self)@ + 1 && final(self)@
                    == value,
                Err(e) => final(self)@ == old(self)@ && (e == CounterError::Overflow <==> old(
                    self,
                )@ == u64::MAX),
            },
    {
        let current = cell_get(&self.cell);
        if current == u64::MAX {
            return Err(CounterError::Overflow);
        }
        let written = cell_set(&mut self.cell, current + 1);
        increment_outcome(current, written)
    }

    /// The counter over a cell that was opened, standing at the number the
    /// cell holds; none where no cell could be opened.
    pub fn holding(cell: Option<CounterCell>) -> (counter: Option<HitCounter>)
        ensures
            match cell {
                Some(opened) => counter is Some && counter->0@ == cell_value(opened),
                None => counter is None,
            },
    {
        match cell {
            Some(opened) => Some(HitCounter { cell: opened }),
            None => None,
        }
    }
}

/// What an increment of a counter at `current` comes to, given what the
/// write of the next number returned.
pub fn increment_outcome(current: u64, written: Option<u64>) -> (outcome: Result<
    u64,
    CounterError,
>)
    ensures
        outcome == advanced(current, written),
{
    if current == u64::MAX {
        Err(CounterError::Overflow)
    } else if written.is_some() {
        Ok(current + 1)
    } else {
        Err(CounterError::StorageFull)
    }
}

} // verus!
