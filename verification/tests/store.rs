use key_custody::custody::{asymmetric_encrypted_aes_key, asymmetric_save_encrypted_aes_key};
use key_custody::error::CustodyError;
use key_custody::identity::Identity;
use key_custody::memory::StableMemory;
use key_custody::store::SecretStore;

fn new_store() -> SecretStore {
    let mut memory = StableMemory::open();
    SecretStore::init(memory.region(0).unwrap())
}

fn user(n: u8) -> Identity {
    Identity::try_from_slice(&[n, 1, 2, 3, 4, 5, 6, 7, 8, 2]).unwrap()
}

#[test]
fn a_new_store_is_empty() {
    let store = new_store();
    assert_eq!(store.load(&user(1)), None);
    assert_eq!(store.load(&Identity::anonymous()), None);
    assert_eq!(store.load(&Identity::try_from_slice(&[]).unwrap()), None);
}

#[test]
fn load_is_repeatable() {
    let mut store = new_store();
    assert_eq!(store.load(&user(1)), store.load(&user(1)));
    assert_eq!(store.save(&user(1), vec![1, 2, 3]), Ok(()));
    let first = store.load(&user(1));
    let second = store.load(&user(1));
    assert_eq!(first, Some(vec![1, 2, 3]));
    assert_eq!(first, second);
}

#[test]
fn last_write_wins() {
    let mut store = new_store();
    assert_eq!(store.save(&user(1), vec![10, 11]), Ok(()));
    assert_eq!(store.save(&user(1), vec![20, 21, 22]), Ok(()));
    assert_eq!(store.load(&user(1)), Some(vec![20, 21, 22]));
}

#[test]
fn identities_are_isolated() {
    let mut store = new_store();
    assert_eq!(store.save(&user(2), vec![5]), Ok(()));
    let before = store.load(&user(2));
    assert_eq!(store.load(&user(1)), None);
    assert_eq!(store.save(&user(1), vec![9, 9, 9]), Ok(()));
    assert_eq!(store.load(&user(2)), before);
    assert_eq!(store.load(&user(2)), Some(vec![5]));
    assert_eq!(store.load(&user(1)), Some(vec![9, 9, 9]));
    assert_eq!(store.load(&user(3)), None);
}

#[test]
fn anonymous_save_is_forbidden() {
    let mut store = new_store();
    let anonymous = Identity::anonymous();
    assert_eq!(store.save(&user(1), vec![1]), Ok(()));
    assert_eq!(store.load(&anonymous), None);
    assert_eq!(store.save(&anonymous, vec![1, 2, 3]), Err(CustodyError::Forbidden));
    assert_eq!(store.save(&anonymous, vec![]), Err(CustodyError::Forbidden));
    assert_eq!(store.load(&anonymous), None);
    assert_eq!(store.load(&user(1)), Some(vec![1]));
}

#[test]
fn blobs_are_kept_as_they_are() {
    let mut store = new_store();
    assert_eq!(store.save(&user(1), vec![]), Ok(()));
    assert_eq!(store.load(&user(1)), Some(vec![]));
    let large: Vec<u8> = (0..5000u32).map(|n| (n % 251) as u8).collect();
    assert_eq!(store.save(&user(2), large.clone()), Ok(()));
    assert_eq!(store.load(&user(2)), Some(large));
    assert_eq!(store.load(&user(1)), Some(vec![]));
}

#[test]
fn the_shortest_and_longest_identities_have_records() {
    let mut store = new_store();
    let empty = Identity::try_from_slice(&[]).unwrap();
    let longest = Identity::try_from_slice(&[255u8; 29]).unwrap();
    assert_eq!(store.save(&empty, vec![1]), Ok(()));
    assert_eq!(store.save(&longest, vec![2]), Ok(()));
    assert_eq!(store.load(&empty), Some(vec![1]));
    assert_eq!(store.load(&longest), Some(vec![2]));
    assert_eq!(store.load(&Identity::try_from_slice(&[255u8; 28]).unwrap()), None);
}

#[test]
fn many_identities_each_find_their_own() {
    let mut store = new_store();
    for n in 0..200u8 {
        assert_eq!(store.save(&user(n), vec![n, n, n]), Ok(()));
    }
    for n in 0..200u8 {
        assert_eq!(store.load(&user(n)), Some(vec![n, n, n]));
    }
    assert_eq!(store.load(&user(200)), None);
}

#[test]
fn records_survive_a_reopening() {
    let mut store = new_store();
    assert_eq!(store.save(&user(1), vec![4, 5, 6]), Ok(()));
    assert_eq!(store.save(&user(2), vec![7]), Ok(()));
    let region = store.close();
    let mut reopened = SecretStore::init(region);
    assert_eq!(reopened.load(&user(1)), Some(vec![4, 5, 6]));
    assert_eq!(reopened.load(&user(2)), Some(vec![7]));
    assert_eq!(reopened.load(&user(3)), None);
    assert_eq!(reopened.save(&user(1), vec![8]), Ok(()));
    let again = reopened.reopen();
    assert_eq!(again.load(&user(1)), Some(vec![8]));
    assert_eq!(again.load(&user(2)), Some(vec![7]));
}

#[test]
fn an_empty_store_reopens_empty() {
    let store = new_store().reopen();
    assert_eq!(store.load(&user(1)), None);
}

#[test]
fn regions_are_apart() {
    let mut memory = StableMemory::open();
    let mut first = SecretStore::init(memory.region(0).unwrap());
    let mut second = SecretStore::init(memory.region(1).unwrap());
    assert_eq!(first.save(&user(1), vec![1]), Ok(()));
    assert_eq!(second.load(&user(1)), None);
    assert_eq!(second.save(&user(1), vec![2]), Ok(()));
    assert_eq!(first.load(&user(1)), Some(vec![1]));
    assert_eq!(second.load(&user(1)), Some(vec![2]));
    let first = first.reopen();
    assert_eq!(first.load(&user(1)), Some(vec![1]));
    let last = SecretStore::init(memory.region(254).unwrap());
    assert_eq!(last.load(&user(1)), None);
}

#[test]
fn a_region_is_handed_out_once() {
    let mut memory = StableMemory::open();
    assert!(memory.region(0).is_some());
    assert!(memory.region(0).is_none());
    assert!(memory.region(7).is_some());
    assert!(memory.region(7).is_none());
    assert!(memory.region(0).is_none());
    assert!(memory.region(254).is_some());
    assert!(memory.region(254).is_none());
}

#[test]
fn the_unusable_region_is_never_handed_out() {
    let mut memory = StableMemory::open();
    assert!(memory.region(255).is_none());
    assert!(memory.region(255).is_none());
    assert!(memory.region(1).is_some());
}

#[test]
fn every_usable_region_is_handed_out() {
    let mut memory = StableMemory::open();
    for id in 0..255u8 {
        assert!(memory.region(id).is_some());
    }
    for id in 0..=255u8 {
        assert!(memory.region(id).is_none());
    }
}

#[test]
fn the_orchestrator_saves_and_loads_through_the_store() {
    let mut store = new_store();
    assert_eq!(asymmetric_encrypted_aes_key(&store, &user(1)), None);
    assert_eq!(asymmetric_save_encrypted_aes_key(&mut store, &user(1), vec![3, 1, 4]), Ok(()));
    assert_eq!(asymmetric_encrypted_aes_key(&store, &user(1)), Some(vec![3, 1, 4]));
    assert_eq!(store.load(&user(1)), Some(vec![3, 1, 4]));
    assert_eq!(
        asymmetric_save_encrypted_aes_key(&mut store, &Identity::anonymous(), vec![3, 1, 4]),
        Err(CustodyError::Forbidden)
    );
    assert_eq!(asymmetric_encrypted_aes_key(&store, &Identity::anonymous()), None);
}
