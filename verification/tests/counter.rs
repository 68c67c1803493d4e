use candid::types::number::Nat;
use key_custody::counter::Counter;

#[test]
fn test_new_get() {
    let counter = Counter::new();

    assert_eq!(counter.get(), Nat::from(0u64));
}

#[test]
fn test_set_get() {
    let mut counter = Counter::new();

    counter.set(Nat::from(7u64));

    assert_eq!(counter.get(), Nat::from(7u64));
}

#[test]
fn test_inc_get() {
    let mut counter = Counter::new();

    counter.inc();

    assert_eq!(counter.get(), Nat::from(1u64));
}

#[test]
fn inc_returns_the_new_number() {
    let mut counter = Counter::new();
    assert_eq!(counter.inc(), Nat::from(1u64));
    assert_eq!(counter.inc(), Nat::from(2u64));
    assert_eq!(counter.get(), Nat::from(2u64));
}

#[test]
fn inc_goes_past_the_largest_machine_integer() {
    let mut counter = Counter::new();
    counter.set(Nat::from(u128::MAX));
    let next = counter.inc();
    assert_eq!(next, Nat::from(u128::MAX) + Nat::from(1u64));
    assert!(next > Nat::from(u128::MAX));
    assert_eq!(counter.get(), next);
}

#[test]
fn get_leaves_the_counter_as_it_is() {
    let mut counter = Counter::new();
    counter.set(Nat::from(41u64));
    assert_eq!(counter.get(), counter.get());
    assert_eq!(counter.inc(), Nat::from(42u64));
}
