//! The key custody orchestrator: the operations a caller can request, and
//! the workflow that answers a request for asymmetric keys.
//!
//! The oracle is asked from outside this library. A request for asymmetric
//! keys therefore proceeds in steps: each step hands back the request to put
//! to the oracle next, and is resumed with the oracle's answer.

use crate::error::{oracle_failure, CustodyError, OracleError};
use crate::identity::{principal_text, Identity};
use crate::store::{blob_view, loaded, save_outcome, saved, SecretStore};
use crate::types::{
    AsymmetricKeysReply, EncryptedKeyRequestView, KeysReplyView, PublicKeyRequestView,
    VetKDEncryptedKeyReply, VetKDEncryptedKeyRequest, VetKDPublicKeyReply, VetKDPublicKeyRequest,
};
use crate::vet_keys::{
    encrypted_key_request, encrypted_key_request_view, public_key_request,
    public_key_request_view,
};
use vstd::prelude::*;
use vstd::string::*;

verus! {

/// The one label of the derivation path that asymmetric key material is
/// derived under.
pub const ASYMMETRIC_PATH: &'static str = "asymmetric";

/// The bytes of the asymmetric derivation label.
pub open spec fn asymmetric_label() -> Seq<u8> {
    "asymmetric".spec_bytes()
}

/// The textual form of the caller's identity. Safe for every caller, the
/// anonymous one included.
pub fn whoami(caller: &Identity) -> (text: String)
    ensures
        text@ == principal_text(caller@),
{
    caller.to_text()
}

/// Takes the caller's encrypted secret into custody, replacing any earlier
/// one. The anonymous caller is refused before the store is touched.
pub fn asymmetric_save_encrypted_aes_key(
    store: &mut SecretStore,
    caller: &Identity,
    encrypted_aes_key: Vec<u8>,
) -> (outcome: Result<(), CustodyError>)
    requires
        !caller.spec_is_anonymous() ==> encrypted_aes_key@.len() <= u32::MAX,
    ensures
        outcome == save_outcome(caller@),
        final(store)@ == saved(old(store)@, caller@, encrypted_aes_key@),
{
    store.save(caller, encrypted_aes_key)
}

/// The caller's own encrypted secret, if one is in custody.
pub fn asymmetric_encrypted_aes_key(store: &SecretStore, caller: &Identity) -> (found: Option<
    Vec<u8>,
>)
    ensures
        blob_view(found) == loaded(store@, caller@),
{
    store.load(caller)
}

/// The oracle request for the public key of asymmetric key material.
pub fn asymmetric_public_key() -> (request: VetKDPublicKeyRequest)
    ensures
        request@ == public_key_request_view(asymmetric_label()),
{
    public_key_request(ASYMMETRIC_PATH)
}

/// The oracle request for the caller's asymmetric key, encrypted under the
/// caller's transport key.
pub fn asymmetric_encrypted_key(caller: &Identity, transport_public_key: Vec<u8>) -> (request:
    VetKDEncryptedKeyRequest)
    ensures
        request@ == encrypted_key_request_view(
            caller@,
            transport_public_key@,
            asymmetric_label(),
        ),
{
    encrypted_key_request(caller, transport_public_key, ASYMMETRIC_PATH)
}

/// A request for asymmetric keys whose public-key request is with the
/// oracle.
pub struct PendingPublicKey {
    caller: Identity,
    transport_public_key: Vec<u8>,
}

/// The view of a request that waits for the public key.
pub struct PendingPublicKeyView {
    pub caller: Seq<u8>,
    pub transport_public_key: Seq<u8>,
}

impl View for PendingPublicKey {
    type V = PendingPublicKeyView;

    closed spec fn view(&self) -> PendingPublicKeyView {
        PendingPublicKeyView {
            caller: self.caller@,
            transport_public_key: self.transport_public_key@,
        }
    }
}

/// A request for asymmetric keys whose encrypted-key request is with the
/// oracle. Its view is the public key already received.
pub struct PendingEncryptedKey {
    public_key: Vec<u8>,
}

impl View for PendingEncryptedKey {
    type V = Seq<u8>;

    closed spec fn view(&self) -> Seq<u8> {
        self.public_key@
    }
}

/// Where a request for asymmetric keys stands once the public key is in.
pub enum KeysProgress {
    /// The caller has a secret in custody: the answer is complete.
    Finished(AsymmetricKeysReply),
    /// The caller has no secret in custody: the oracle is to derive an
    /// encrypted key.
    NeedsEncryptedKey(PendingEncryptedKey, VetKDEncryptedKeyRequest),
}

/// The view of a request's progress.
pub enum ProgressView {
    Finished(KeysReplyView),
    NeedsEncryptedKey(Seq<u8>, EncryptedKeyRequestView),
}

impl View for KeysProgress {
    type V = ProgressView;

    open spec fn view(&self) -> ProgressView {
        match *self {
            KeysProgress::Finished(reply) => ProgressView::Finished(reply@),
            KeysProgress::NeedsEncryptedKey(pending, request) => ProgressView::NeedsEncryptedKey(
                pending@,
                request@,
            ),
        }
    }
}

/// The records a request is answered against: those of the store, or none
/// for a service that runs without custody.
pub open spec fn custody_records(store: Option<&SecretStore>) -> Map<Seq<u8>, Seq<u8>> {
    match store {
        Some(held) => held@,
        None => Map::empty(),
    }
}

/// The progress of a request after the oracle returned `public_key`, against
/// the records the store holds at that moment: with a secret in custody the
/// answer carries it and no encrypted key; without one the oracle is asked
/// for the caller's encrypted key.
pub open spec fn after_public_key(
    records: Map<Seq<u8>, Seq<u8>>,
    pending: PendingPublicKeyView,
    public_key: Seq<u8>,
) -> ProgressView {
    match loaded(records, pending.caller) {
        Some(secret) => ProgressView::Finished(
            KeysReplyView { public_key, encrypted_key: None, encrypted_aes_key: Some(secret) },
        ),
        None => ProgressView::NeedsEncryptedKey(
            public_key,
            encrypted_key_request_view(
                pending.caller,
                pending.transport_public_key,
                asymmetric_label(),
            ),
        ),
    }
}

/// The answer to a request after the oracle returned `encrypted_key`.
pub open spec fn after_encrypted_key(public_key: Seq<u8>, encrypted_key: Seq<u8>) -> KeysReplyView {
    KeysReplyView { public_key, encrypted_key: Some(encrypted_key), encrypted_aes_key: None }
}

/// A request put to the oracle.
pub enum OracleCall {
    PublicKey(PublicKeyRequestView),
    EncryptedKey(EncryptedKeyRequestView),
}

/// The requests, in order, that a request for asymmetric keys puts to an
/// oracle that answers each of them, the first with `public_key`.
pub open spec fn oracle_calls(
    records: Map<Seq<u8>, Seq<u8>>,
    caller: Seq<u8>,
    transport_public_key: Seq<u8>,
    public_key: Seq<u8>,
) -> Seq<OracleCall> {
    let first = OracleCall::PublicKey(public_key_request_view(asymmetric_label()));
    let pending = PendingPublicKeyView { caller, transport_public_key };
    match after_public_key(records, pending, public_key) {
        ProgressView::Finished(_) => seq![first],
        ProgressView::NeedsEncryptedKey(_, request) => seq![
            first,
            OracleCall::EncryptedKey(request),
        ],
    }
}

/// The answer to a request for asymmetric keys when the oracle returns
/// `public_key` and, if it is asked for one, `encrypted_key`.
pub open spec fn keys_reply(
    records: Map<Seq<u8>, Seq<u8>>,
    caller: Seq<u8>,
    transport_public_key: Seq<u8>,
    public_key: Seq<u8>,
    encrypted_key: Seq<u8>,
) -> KeysReplyView {
    let pending = PendingPublicKeyView { caller, transport_public_key };
    match after_public_key(records, pending, public_key) {
        ProgressView::Finished(reply) => reply,
        ProgressView::NeedsEncryptedKey(received, _) => after_encrypted_key(
            received,
            encrypted_key,
        ),
    }
}

/// Begins a request for asymmetric keys: the public key is always asked for,
/// whatever the store holds.
pub fn asymmetric_keys(caller: Identity, transport_public_key: Vec<u8>) -> (begun: (
    PendingPublicKey,
    VetKDPublicKeyRequest,
))
    ensures
        begun.0@ == (PendingPublicKeyView {
            caller: caller@,
            transport_public_key: transport_public_key@,
        }),
        begun.1@ == public_key_request_view(asymmetric_label()),
{
    (PendingPublicKey { caller, transport_public_key }, asymmetric_public_key())
}

impl PendingPublicKey {
    /// Resumes with the oracle's answer to the public-key request. A failure
    /// of the oracle aborts the request. Otherwise the caller's secret is
    /// looked up in the store, and the request is finished or goes on to the
    /// encrypted key. A service that runs without custody passes no store,
    /// and every request goes on to the encrypted key.
    pub fn resume(
        self,
        store: Option<&SecretStore>,
        answer: Result<VetKDPublicKeyReply, OracleError>,
    ) -> (progress: Result<KeysProgress, CustodyError>)
        ensures
            match answer {
                Ok(reply) => match progress {
                    Ok(p) => p@ == after_public_key(
                        custody_records(store),
                        self@,
                        reply.public_key@,
                    ),
                    Err(_) => false,
                },
                Err(e) => progress == Err::<KeysProgress, CustodyError>(oracle_failure(e)),
            },
    {
        match answer {
            Err(e) => Err(CustodyError::from_oracle(e)),
            Ok(reply) => {
                let public_key = reply.public_key;
                let secret = match store {
                    Some(held) => held.load(&self.caller),
                    None => None,
                };
                match secret {
                    Some(secret) => Ok(
                        KeysProgress::Finished(
                            AsymmetricKeysReply {
                                public_key,
                                encrypted_key: None,
                                encrypted_aes_key: Some(secret),
                            },
                        ),
                    ),
                    None => {
                        let request = asymmetric_encrypted_key(
                            &self.caller,
                            self.transport_public_key,
                        );
                        Ok(
                            KeysProgress::NeedsEncryptedKey(
                                PendingEncryptedKey { public_key },
                                request,
                            ),
                        )
                    },
                }
            },
        }
    }
}

impl PendingEncryptedKey {
    /// Resumes with the oracle's answer to the encrypted-key request. A
    /// failure of the oracle aborts the request; otherwise the answer is
    /// assembled.
    pub fn resume(self, answer: Result<VetKDEncryptedKeyReply, OracleError>) -> (reply: Result<
        AsymmetricKeysReply,
        CustodyError,
    >)
        ensures
            match answer {
                Ok(derived) => match reply {
                    Ok(r) => r@ == after_encrypted_key(self@, derived.encrypted_key@),
                    Err(_) => false,
                },
                Err(e) => reply == Err::<AsymmetricKeysReply, CustodyError>(oracle_failure(e)),
            },
    {
        match answer {
            Err(e) => Err(CustodyError::from_oracle(e)),
            Ok(derived) => Ok(
                AsymmetricKeysReply {
                    public_key: self.public_key,
                    encrypted_key: Some(derived.encrypted_key),
                    encrypted_aes_key: None,
                },
            ),
        }
    }
}

} // verus!
