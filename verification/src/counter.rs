//! A counter of unbounded range.

use candid::Nat;
use vstd::prelude::*;

verus! {

/// `candid::Nat`, a natural number of any size, taken as opaque.
#[verifier::external_type_specification]
#[verifier::external_body]
pub struct ExNat(Nat);

/// The natural number that a `candid::Nat` stands for.
pub uninterp spec fn nat_value(n: Nat) -> nat;

/// Calls `Nat::from` on a `u64`: the number itself.
#[verifier::external_body]
fn nat_of(v: u64) -> (n: Nat)
    ensures
        nat_value(n) == v as nat,
{
    Nat::from(v)
}

/// Calls `Nat::clone`: a second value of the same number.
#[verifier::external_body]
fn nat_copy(n: &Nat) -> (copy: Nat)
    ensures
        nat_value(copy) == nat_value(*n),
{
    n.clone()
}

/// Calls `Nat`'s `add_assign` with a `u64`: the number grows by the amount.
/// The number has no upper limit.
#[verifier::external_body]
fn nat_add(n: &mut Nat, amount: u64)
    ensures
        nat_value(*final(n)) == nat_value(*old(n)) + amount,
{
    *n += amount;
}

/// A counter that starts at zero and has no upper limit.
pub struct Counter {
    count: Nat,
}

impl Counter {
    /// The number the counter stands at.
    pub closed spec fn value(&self) -> nat {
        nat_value(self.count)
    }

    /// A counter at zero.
    pub fn new() -> (counter: Counter)
        ensures
            counter.value() == 0,
    {
        Counter { count: nat_of(0) }
    }

    /// The number the counter stands at.
    pub fn get(&self) -> (count: Nat)
        ensures
            nat_value(count) == self.value(),
    {
        nat_copy(&self.count)
    }

    /// Puts the counter at the given number.
    pub fn set(&mut self, count: Nat)
        ensures
            final(self).value() == nat_value(count),
    {
        self.count = count
    }

    /// Advances the counter by one and returns the number it then stands
    /// at.
    pub fn inc(&mut self) -> (count: Nat)
        ensures
            final(self).value() == old(self).value() + 1,
            nat_value(count) == old(self).value() + 1,
    {
        nat_add(&mut self.count, 1);
        nat_copy(&self.count)
    }
}

} // verus!
