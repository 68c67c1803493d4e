//! Caller identities: opaque byte strings of bounded length, one of which is
//! reserved for unauthenticated callers.

use candid::Principal;
use vstd::prelude::*;
use vstd::slice::slice_to_vec;

verus! {

/// The longest byte string that is an identity.
pub const MAX_IDENTITY_BYTES: usize = 29;

/// The bytes of the anonymous identity.
pub open spec fn anonymous_bytes() -> Seq<u8> {
    seq![4u8]
}

/// The textual form of the identity with the given bytes: a checksum and the
/// bytes, in lower-case base 32, grouped by dashes.
pub uninterp spec fn principal_text(bytes: Seq<u8>) -> Seq<char>;

/// Renders identity bytes with `candid::Principal::to_text`, after building
/// the principal with `Principal::from_slice`. The result is the named text
/// of exactly these bytes; nothing more is claimed of it. `from_slice` panics
/// on more than 29 bytes, which the precondition rules out.
#[verifier::external_body]
fn principal_to_text(bytes: &[u8]) -> (text: String)
    requires
        bytes@.len() <= MAX_IDENTITY_BYTES,
    ensures
        text@ == principal_text(bytes@),
{
    Principal::from_slice(bytes).to_text()
}

/// An authenticated caller, or the anonymous one. Its view is its bytes.
#[derive(Debug, PartialEq, Eq)]
pub struct Identity {
    bytes: Vec<u8>,
}

impl View for Identity {
    type V = Seq<u8>;

    closed spec fn view(&self) -> Seq<u8> {
        self.bytes@
    }
}

impl Clone for Identity {
    fn clone(&self) -> (copy: Identity)
        ensures
            copy@ == self@,
    {
        proof {
            use_type_invariant(self);
        }
        Identity { bytes: self.bytes.clone() }
    }
}

impl Identity {
    #[verifier::type_invariant]
    spec fn bounded(self) -> bool {
        self.bytes@.len() <= MAX_IDENTITY_BYTES
    }

    /// Whether the view is that of the anonymous identity.
    pub open spec fn spec_is_anonymous(&self) -> bool {
        self@ == anonymous_bytes()
    }

    /// The identity with the given bytes, if they are few enough.
    pub fn try_from_slice(bytes: &[u8]) -> (made: Option<Identity>)
        ensures
            bytes@.len() <= MAX_IDENTITY_BYTES ==> made is Some && made->0@ == bytes@,
            bytes@.len() > MAX_IDENTITY_BYTES ==> made is None,
    {
        if bytes.len() <= MAX_IDENTITY_BYTES {
            Some(Identity { bytes: slice_to_vec(bytes) })
        } else {
            None
        }
    }

    /// The identity reserved for unauthenticated callers.
    pub fn anonymous() -> (id: Identity)
        ensures
            id@ == anonymous_bytes(),
    {
        let mut bytes: Vec<u8> = Vec::new();
        bytes.push(4u8);
        Identity { bytes }
    }

    /// The identity's bytes.
    pub fn as_slice(&self) -> (bytes: &[u8])
        ensures
            bytes@ == self@,
            bytes@.len() <= MAX_IDENTITY_BYTES,
    {
        proof {
            use_type_invariant(self);
        }
        self.bytes.as_slice()
    }

    /// Whether this is the anonymous identity.
    #[verifier::when_used_as_spec(spec_is_anonymous)]
    pub fn is_anonymous(&self) -> (anonymous: bool)
        ensures
            anonymous == self.spec_is_anonymous(),
    {
        if self.bytes.len() == 1 {
            let anonymous = self.bytes[0] == 4u8;
            assert(anonymous ==> self.bytes@ =~= anonymous_bytes());
            anonymous
        } else {
            false
        }
    }

    /// Whether two identities have the same bytes.
    pub fn same_as(&self, other: &Identity) -> (same: bool)
        ensures
            same == (self@ == other@),
    {
        if self.bytes.len() != other.bytes.len() {
            return false;
        }
        let mut i: usize = 0;
        while i < self.bytes.len()
            invariant
                self.bytes@.len() == other.bytes@.len(),
                i <= self.bytes@.len(),
                forall|k: int| 0 <= k < i ==> self.bytes@[k] == other.bytes@[k],
            decreases self.bytes@.len() - i,
        {
            if self.bytes[i] != other.bytes[i] {
                return false;
            }
            i += 1;
        }
        assert(self.bytes@ =~= other.bytes@);
        true
    }

    /// The textual form of the identity.
    pub fn to_text(&self) -> (text: String)
        ensures
            text@ == principal_text(self@),
    {
        principal_to_text(self.as_slice())
    }
}

} // verus!
