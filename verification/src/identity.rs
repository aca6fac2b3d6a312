//! Participant identities: parsing and validating the three public keys.
//!
//! An [`Identity`] holds the 33-byte compressed SEC encoding of a secp256k1
//! public key. The invariant — the bytes decode to a valid curve point — is
//! established by [`resolve`] and can be re-checked defensively with
//! [`Identity::revalidate`].

use vstd::prelude::*;
use crate::errors::{EscrowError, Role};

verus! {

/// The result of parsing an identity string: the 33-byte compressed
/// encoding of the named key, or `None` when the string is malformed or
/// names no valid curve point. Parsing is a function of the string alone.
pub uninterp spec fn pubkey_parse(s: Seq<char>) -> Option<Seq<u8>>;

/// Whether a byte string is an encoding of a valid secp256k1 curve point,
/// as the key-decoding routine of the curve library accepts it.
pub uninterp spec fn point_valid(k: Seq<u8>) -> bool;

/// Relies on `secp256k1::PublicKey::from_str` and `serialize`: hex decoding
/// plus curve-point validation; the compressed serialization of an accepted
/// key is 33 bytes and is itself accepted by `PublicKey::from_slice`.
#[verifier::external_body]
fn parse_pubkey(s: &str) -> (r: Option<Vec<u8>>)
    ensures
        match r {
            Some(k) => pubkey_parse(s@) == Some(k@) && k@.len() == 33 && point_valid(k@),
            None => pubkey_parse(s@) is None,
        },
{
    match s.parse::<bitcoin::secp256k1::PublicKey>() {
        Ok(pk) => Some(pk.serialize().to_vec()),
        Err(_) => None,
    }
}

/// Relies on `secp256k1::PublicKey::from_slice`: it accepts exactly the
/// valid encodings of curve points.
#[verifier::external_body]
fn check_point(k: &Vec<u8>) -> (r: bool)
    ensures
        r == point_valid(k@),
{
    bitcoin::secp256k1::PublicKey::from_slice(k.as_slice()).is_ok()
}

/// A participant reference, derived from a public key. Immutable once
/// parsed.
#[derive(Debug)]
pub struct Identity {
    key: Vec<u8>,
}

impl View for Identity {
    type V = Seq<u8>;

    closed spec fn view(&self) -> Seq<u8> {
        self.key@
    }
}

impl Identity {
    /// The identity's invariant: a 33-byte compressed encoding of a valid
    /// curve point.
    pub open spec fn wf(&self) -> bool {
        self@.len() == 33 && point_valid(self@)
    }

    /// The compressed public key bytes.
    pub fn key_bytes(&self) -> (r: &Vec<u8>)
        ensures
            r@ == self@,
    {
        &self.key
    }

    /// A fresh copy of this identity.
    pub fn duplicate(&self) -> (r: Identity)
        ensures
            r@ == self@,
    {
        Identity { key: crate::bytes::copy_bytes(&self.key) }
    }

    /// Re-checks the curve-point invariant against the curve library.
    pub fn revalidate(&self) -> (r: bool)
        ensures
            r == (self@.len() == 33 && point_valid(self@)),
    {
        self.key.len() == 33 && check_point(&self.key)
    }
}

/// Parses one participant identity. Fails with `InvalidIdentity`, tagged
/// with `role`, exactly when the string is malformed or names no valid
/// curve point.
pub fn resolve(raw: &str, role: Role) -> (r: Result<Identity, EscrowError>)
    ensures
        match r {
            Ok(id) => pubkey_parse(raw@) == Some(id@) && id.wf(),
            Err(e) => pubkey_parse(raw@) is None && e == EscrowError::InvalidIdentity(role),
        },
{
    match parse_pubkey(raw) {
        Some(k) => Ok(Identity { key: k }),
        None => Err(EscrowError::InvalidIdentity(role)),
    }
}

/// Parses the three participant identities, in role order. If any one
/// fails, the whole construction aborts with the specific field-tagged
/// error: the buyer is reported first, then the seller, then the
/// arbitrator.
pub fn resolve_participants(buyer: &str, seller: &str, arbitrator: &str) -> (r: Result<
    (Identity, Identity, Identity),
    EscrowError,
>)
    ensures
        match r {
            Ok((b, s, a)) => {
                &&& pubkey_parse(buyer@) == Some(b@) && b.wf()
                &&& pubkey_parse(seller@) == Some(s@) && s.wf()
                &&& pubkey_parse(arbitrator@) == Some(a@) && a.wf()
            },
            Err(e) => {
                ||| e == EscrowError::InvalidIdentity(Role::Buyer) && pubkey_parse(buyer@) is None
                ||| e == EscrowError::InvalidIdentity(Role::Seller) && pubkey_parse(buyer@) is Some
                    && pubkey_parse(seller@) is None
                ||| e == EscrowError::InvalidIdentity(Role::Arbitrator) && pubkey_parse(buyer@)
                    is Some && pubkey_parse(seller@) is Some && pubkey_parse(arbitrator@) is None
            },
        },
{
    let b = resolve(buyer, Role::Buyer)?;
    let s = resolve(seller, Role::Seller)?;
    let a = resolve(arbitrator, Role::Arbitrator)?;
    Ok((b, s, a))
}

} // verus!
