//! The requests this service puts to the key-derivation oracle.

use crate::identity::Identity;
use crate::types::{
    path_view, EncryptedKeyRequestView, KeyIdView, PublicKeyRequestView, VetKDCurve,
    VetKDEncryptedKeyRequest, VetKDKeyId, VetKDPublicKeyRequest,
};
use vstd::prelude::*;
use vstd::slice::slice_to_vec;
use vstd::string::*;

verus! {

/// The view of the one key configuration this service uses.
pub open spec fn test_key_view() -> KeyIdView {
    KeyIdView { curve: VetKDCurve::Bls12_381_G2, name: "test_key_1"@ }
}

/// The public-key request for a derivation path of one label.
pub open spec fn public_key_request_view(label: Seq<u8>) -> PublicKeyRequestView {
    PublicKeyRequestView {
        canister_id: None,
        derivation_path: seq![label],
        key_id: test_key_view(),
    }
}

/// The encrypted-key request that binds the derived key to `caller` and has
/// it encrypted under `encryption_public_key`.
pub open spec fn encrypted_key_request_view(
    caller: Seq<u8>,
    encryption_public_key: Seq<u8>,
    label: Seq<u8>,
) -> EncryptedKeyRequestView {
    EncryptedKeyRequestView {
        derivation_path: seq![label],
        derivation_id: caller,
        key_id: test_key_view(),
        encryption_public_key,
    }
}

/// The key configuration this service uses: curve BLS12-381 G2, key
/// `test_key_1`.
pub fn bls12_381_g2_test_key_1() -> (key_id: VetKDKeyId)
    ensures
        key_id@ == test_key_view(),
{
    VetKDKeyId { curve: VetKDCurve::Bls12_381_G2, name: String::from_str("test_key_1") }
}

/// A derivation path that consists of the one given label.
fn single_label_path(label: &str) -> (path: Vec<Vec<u8>>)
    ensures
        path_view(path) == seq![label.spec_bytes()],
{
    let mut path: Vec<Vec<u8>> = Vec::new();
    path.push(label.as_bytes_vec());
    assert(path_view(path) =~= seq![label.spec_bytes()]);
    path
}

/// The request for the public key derived under `derivation_path`, for this
/// service itself and its one key configuration.
pub fn public_key_request(derivation_path: &str) -> (request: VetKDPublicKeyRequest)
    ensures
        request@ == public_key_request_view(derivation_path.spec_bytes()),
{
    VetKDPublicKeyRequest {
        canister_id: None,
        derivation_path: single_label_path(derivation_path),
        key_id: bls12_381_g2_test_key_1(),
    }
}

/// The request for the key derived under `derivation_path` for `caller`,
/// encrypted under `encryption_public_key`.
pub fn encrypted_key_request(
    caller: &Identity,
    encryption_public_key: Vec<u8>,
    derivation_path: &str,
) -> (request: VetKDEncryptedKeyRequest)
    ensures
        request@ == encrypted_key_request_view(
            caller@,
            encryption_public_key@,
            derivation_path.spec_bytes(),
        ),
{
    VetKDEncryptedKeyRequest {
        derivation_id: slice_to_vec(caller.as_slice()),
        derivation_path: single_label_path(derivation_path),
        key_id: bls12_381_g2_test_key_1(),
        encryption_public_key,
    }
}

} // verus!
