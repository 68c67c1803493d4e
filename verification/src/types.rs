//! The values exchanged with the key-derivation oracle and with callers.

use crate::identity::Identity;
use crate::store::blob_view;
use vstd::prelude::*;

verus! {

/// The labels of a derivation path, each by its bytes.
pub open spec fn path_view(path: Vec<Vec<u8>>) -> Seq<Seq<u8>> {
    Seq::new(path@.len(), |i: int| path@[i]@)
}

/// The curves the oracle derives keys on.
#[derive(Debug, Clone, Copy, PartialEq, Eq, Structural)]
pub enum VetKDCurve {
    #[allow(non_camel_case_types)]
    Bls12_381_G2,
}

/// A named key configuration of the oracle.
#[derive(Debug, PartialEq, Eq)]
pub struct VetKDKeyId {
    pub curve: VetKDCurve,
    pub name: String,
}

/// The view of a key configuration.
pub struct KeyIdView {
    pub curve: VetKDCurve,
    pub name: Seq<char>,
}

impl View for VetKDKeyId {
    type V = KeyIdView;

    open spec fn view(&self) -> KeyIdView {
        KeyIdView { curve: self.curve, name: self.name@ }
    }
}

/// A request for the public key derived under a path.
#[derive(Debug, PartialEq, Eq)]
pub struct VetKDPublicKeyRequest {
    pub canister_id: Option<Identity>,
    pub derivation_path: Vec<Vec<u8>>,
    pub key_id: VetKDKeyId,
}

/// The view of a public-key request.
pub struct PublicKeyRequestView {
    pub canister_id: Option<Seq<u8>>,
    pub derivation_path: Seq<Seq<u8>>,
    pub key_id: KeyIdView,
}

impl View for VetKDPublicKeyRequest {
    type V = PublicKeyRequestView;

    open spec fn view(&self) -> PublicKeyRequestView {
        PublicKeyRequestView {
            canister_id: match self.canister_id {
                Some(id) => Some(id@),
                None => None,
            },
            derivation_path: path_view(self.derivation_path),
            key_id: self.key_id@,
        }
    }
}

/// The oracle's answer to a public-key request.
#[derive(Debug, PartialEq, Eq)]
pub struct VetKDPublicKeyReply {
    pub public_key: Vec<u8>,
}

/// A request for a key bound to an identity and encrypted under a transport
/// key.
#[derive(Debug, PartialEq, Eq)]
pub struct VetKDEncryptedKeyRequest {
    pub derivation_path: Vec<Vec<u8>>,
    pub derivation_id: Vec<u8>,
    pub key_id: VetKDKeyId,
    pub encryption_public_key: Vec<u8>,
}

/// The view of an encrypted-key request.
pub struct EncryptedKeyRequestView {
    pub derivation_path: Seq<Seq<u8>>,
    pub derivation_id: Seq<u8>,
    pub key_id: KeyIdView,
    pub encryption_public_key: Seq<u8>,
}

impl View for VetKDEncryptedKeyRequest {
    type V = EncryptedKeyRequestView;

    open spec fn view(&self) -> EncryptedKeyRequestView {
        EncryptedKeyRequestView {
            derivation_path: path_view(self.derivation_path),
            derivation_id: self.derivation_id@,
            key_id: self.key_id@,
            encryption_public_key: self.encryption_public_key@,
        }
    }
}

/// The oracle's answer to an encrypted-key request.
#[derive(Debug, PartialEq, Eq)]
pub struct VetKDEncryptedKeyReply {
    pub encrypted_key: Vec<u8>,
}

/// The composite answer to a request for asymmetric keys.
#[derive(Debug, PartialEq, Eq)]
pub struct AsymmetricKeysReply {
    pub public_key: Vec<u8>,
    pub encrypted_key: Option<Vec<u8>>,
    pub encrypted_aes_key: Option<Vec<u8>>,
}

/// The view of a composite answer.
pub struct KeysReplyView {
    pub public_key: Seq<u8>,
    pub encrypted_key: Option<Seq<u8>>,
    pub encrypted_aes_key: Option<Seq<u8>>,
}

impl View for AsymmetricKeysReply {
    type V = KeysReplyView;

    open spec fn view(&self) -> KeysReplyView {
        KeysReplyView {
            public_key: self.public_key@,
            encrypted_key: blob_view(self.encrypted_key),
            encrypted_aes_key: blob_view(self.encrypted_aes_key),
        }
    }
}

} // verus!
