use candid::Principal;
use key_custody::custody::whoami;
use key_custody::identity::{Identity, MAX_IDENTITY_BYTES};

#[test]
fn anonymous_has_the_reserved_bytes() {
    let anonymous = Identity::anonymous();
    assert_eq!(anonymous.as_slice(), &[4u8]);
    assert_eq!(anonymous.as_slice(), Principal::anonymous().as_slice());
    assert!(anonymous.is_anonymous());
}

#[test]
fn only_the_reserved_bytes_are_anonymous() {
    assert!(Identity::try_from_slice(&[4]).unwrap().is_anonymous());
    assert!(!Identity::try_from_slice(&[]).unwrap().is_anonymous());
    assert!(!Identity::try_from_slice(&[5]).unwrap().is_anonymous());
    assert!(!Identity::try_from_slice(&[4, 0]).unwrap().is_anonymous());
    assert!(!Identity::try_from_slice(&[4, 4]).unwrap().is_anonymous());
}

#[test]
fn identities_hold_at_most_29_bytes() {
    assert_eq!(MAX_IDENTITY_BYTES, 29);
    let longest = [7u8; 29];
    let made = Identity::try_from_slice(&longest).unwrap();
    assert_eq!(made.as_slice(), &longest[..]);
    assert!(Identity::try_from_slice(&[7u8; 30]).is_none());
    assert!(Identity::try_from_slice(&[0u8; 64]).is_none());
    assert_eq!(Identity::try_from_slice(&[]).unwrap().as_slice(), &[] as &[u8]);
}

#[test]
fn same_as_compares_bytes() {
    let a = Identity::try_from_slice(&[1, 2, 3]).unwrap();
    let b = Identity::try_from_slice(&[1, 2, 3]).unwrap();
    let c = Identity::try_from_slice(&[1, 2, 4]).unwrap();
    let d = Identity::try_from_slice(&[1, 2]).unwrap();
    assert!(a.same_as(&b));
    assert!(!a.same_as(&c));
    assert!(!a.same_as(&d));
    assert!(!d.same_as(&a));
    assert_eq!(a, b);
    assert_ne!(a, c);
}

#[test]
fn clone_keeps_the_bytes() {
    let a = Identity::try_from_slice(&[9, 8, 7, 6]).unwrap();
    let b = a.clone();
    assert_eq!(a, b);
    assert_eq!(b.as_slice(), &[9, 8, 7, 6]);
}

#[test]
fn text_of_known_identities() {
    assert_eq!(Identity::try_from_slice(&[]).unwrap().to_text(), "aaaaa-aa");
    assert_eq!(Identity::anonymous().to_text(), "2vxsx-fae");
    let id = Identity::try_from_slice(&[0xef, 0xcd, 0xab, 0, 0, 0, 0, 0, 1]).unwrap();
    assert_eq!(id.to_text(), "2chl6-4hpzw-vqaaa-aaaaa-c");
}

#[test]
fn text_agrees_with_principal() {
    let mut bytes = Vec::new();
    for n in 0..=29u8 {
        let id = Identity::try_from_slice(&bytes).unwrap();
        assert_eq!(id.to_text(), Principal::from_slice(&bytes).to_text());
        assert_eq!(Principal::from_text(id.to_text()).unwrap().as_slice(), &bytes[..]);
        bytes.push(n.wrapping_mul(37).wrapping_add(11));
    }
}

#[test]
fn whoami_echoes_the_caller() {
    let caller = Identity::try_from_slice(&[0xef, 0xcd, 0xab, 0, 0, 0, 0, 0, 1]).unwrap();
    assert_eq!(whoami(&caller), "2chl6-4hpzw-vqaaa-aaaaa-c");
    assert_eq!(whoami(&caller), caller.to_text());
}
