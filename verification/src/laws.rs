//! What holds of the store and of the orchestrator on every input, stated
//! over the models that their contracts use.

use crate::custody::{asymmetric_label, keys_reply, oracle_calls, OracleCall};
use crate::error::CustodyError;
use crate::identity::anonymous_bytes;
use crate::store::{holds_no_anonymous, loaded, save_outcome, saved};
use crate::vet_keys::{encrypted_key_request_view, public_key_request_view};
use vstd::prelude::*;

verus! {

/// Reading is repeatable: what `load` returns is a function of the records
/// and the identity alone, so two loads with no save between them agree.
pub proof fn law_load_is_repeatable(
    records: Map<Seq<u8>, Seq<u8>>,
    identity: Seq<u8>,
    first: Option<Seq<u8>>,
    second: Option<Seq<u8>>,
)
    requires
        first == loaded(records, identity),
        second == loaded(records, identity),
    ensures
        first == second,
{
}

/// The last write wins: after two saves by an authenticated identity, a load
/// by the same identity finds the blob saved last.
pub proof fn law_last_write_wins(
    records: Map<Seq<u8>, Seq<u8>>,
    identity: Seq<u8>,
    first: Seq<u8>,
    second: Seq<u8>,
)
    requires
        identity != anonymous_bytes(),
    ensures
        save_outcome(identity) == Ok::<(), CustodyError>(()),
        loaded(saved(saved(records, identity, first), identity, second), identity) == Some(
            second,
        ),
{
}

/// Identities are isolated: a save by one identity does not change what any
/// other identity loads.
pub proof fn law_save_is_isolated(
    records: Map<Seq<u8>, Seq<u8>>,
    writer: Seq<u8>,
    reader: Seq<u8>,
    blob: Seq<u8>,
)
    requires
        writer != reader,
    ensures
        loaded(saved(records, writer, blob), reader) == loaded(records, reader),
{
}

/// The anonymous identity is refused: its save fails with `Forbidden` and
/// leaves the records as they were, so that a store that met its invariant
/// has nothing to load for the anonymous identity before and after.
pub proof fn law_anonymous_is_refused(records: Map<Seq<u8>, Seq<u8>>, blob: Seq<u8>)
    ensures
        save_outcome(anonymous_bytes()) == Err::<(), CustodyError>(CustodyError::Forbidden),
        saved(records, anonymous_bytes(), blob) == records,
        holds_no_anonymous(records) ==> loaded(records, anonymous_bytes()) is None && loaded(
            saved(records, anonymous_bytes(), blob),
            anonymous_bytes(),
        ) is None,
{
}

/// The store's invariant is kept: no save, by whichever identity, brings a
/// record of the anonymous identity into the store.
pub proof fn law_no_anonymous_record(
    records: Map<Seq<u8>, Seq<u8>>,
    identity: Seq<u8>,
    blob: Seq<u8>,
)
    requires
        holds_no_anonymous(records),
    ensures
        holds_no_anonymous(saved(records, identity, blob)),
{
}

/// Derivation is conditional. With a secret in custody for the caller, the
/// answer carries no encrypted key and the oracle is asked for the public
/// key only. Without one, the answer carries the encrypted key that the
/// oracle returned, and the oracle is asked for it exactly once, for the
/// caller, the asymmetric path and the caller's transport key.
pub proof fn law_derivation_is_conditional(
    records: Map<Seq<u8>, Seq<u8>>,
    caller: Seq<u8>,
    transport_public_key: Seq<u8>,
    public_key: Seq<u8>,
    encrypted_key: Seq<u8>,
)
    ensures
        loaded(records, caller) is Some ==> {
            &&& keys_reply(
                records,
                caller,
                transport_public_key,
                public_key,
                encrypted_key,
            ).encrypted_key is None
            &&& keys_reply(
                records,
                caller,
                transport_public_key,
                public_key,
                encrypted_key,
            ).encrypted_aes_key == loaded(records, caller)
            &&& oracle_calls(records, caller, transport_public_key, public_key) == seq![
                OracleCall::PublicKey(public_key_request_view(asymmetric_label())),
            ]
        },
        loaded(records, caller) is None ==> {
            &&& keys_reply(
                records,
                caller,
                transport_public_key,
                public_key,
                encrypted_key,
            ).encrypted_key == Some(encrypted_key)
            &&& keys_reply(
                records,
                caller,
                transport_public_key,
                public_key,
                encrypted_key,
            ).encrypted_aes_key is None
            &&& oracle_calls(records, caller, transport_public_key, public_key) == seq![
                OracleCall::PublicKey(public_key_request_view(asymmetric_label())),
                OracleCall::EncryptedKey(
                    encrypted_key_request_view(caller, transport_public_key, asymmetric_label()),
                ),
            ]
        },
{
}

/// The public key is always present: whatever the store holds, the oracle
/// is first asked for the public key of the asymmetric path, and the answer
/// carries the key it returned, which is non-empty where the oracle's is.
pub proof fn law_public_key_is_always_present(
    records: Map<Seq<u8>, Seq<u8>>,
    caller: Seq<u8>,
    transport_public_key: Seq<u8>,
    public_key: Seq<u8>,
    encrypted_key: Seq<u8>,
)
    requires
        public_key.len() > 0,
    ensures
        oracle_calls(records, caller, transport_public_key, public_key)[0] == OracleCall::PublicKey(
            public_key_request_view(asymmetric_label()),
        ),
        keys_reply(
            records,
            caller,
            transport_public_key,
            public_key,
            encrypted_key,
        ).public_key == public_key,
        keys_reply(
            records,
            caller,
            transport_public_key,
            public_key,
            encrypted_key,
        ).public_key.len() > 0,
{
}

} // verus!
