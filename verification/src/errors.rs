//! Error taxonomy of the escrow engine.
//!
//! Validation errors (identity, script, amount) are terminal for a request.
//! `InsufficientSignatures` is the normal pending state of a signing session,
//! not a fatal error. Broadcast outcomes are classified separately in
//! [`crate::broadcast`].

use vstd::prelude::*;

verus! {

/// The three participant roles of an escrow.
#[derive(Debug, Clone, Copy, PartialEq, Eq, Structural)]
pub enum Role {
    Buyer,
    Seller,
    Arbitrator,
}

/// Everything that can go wrong while building and signing an escrow
/// transaction.
#[derive(Debug, Clone, Copy, PartialEq, Eq, Structural)]
pub enum EscrowError {
    /// A participant identity string is malformed or does not decode to a
    /// valid curve point. Tagged with the offending role.
    InvalidIdentity(Role),
    /// A key handed to the script builder failed the defensive re-validation.
    ScriptConstructionError,
    /// The requested amount is zero.
    InvalidAmount,
    /// A submitted signature does not verify against the transaction's
    /// signature hash and the claimed signer's public key, or the claimed
    /// signer is not a participant of the policy.
    SignatureVerificationFailed,
    /// The signing threshold is not yet met; the session stays open.
    InsufficientSignatures,
}

impl EscrowError {
    /// A short stable description, usable by adapters that report errors.
    pub fn describe(&self) -> (r: &'static str)
        ensures
            r@ == match *self {
                EscrowError::InvalidIdentity(Role::Buyer) => "invalid buyer identity"@,
                EscrowError::InvalidIdentity(Role::Seller) => "invalid seller identity"@,
                EscrowError::InvalidIdentity(Role::Arbitrator) => "invalid arbitrator identity"@,
                EscrowError::ScriptConstructionError => "escrow script construction failed"@,
                EscrowError::InvalidAmount => "amount must be a positive satoshi value"@,
                EscrowError::SignatureVerificationFailed => "signature verification failed"@,
                EscrowError::InsufficientSignatures => "signing threshold not yet met"@,
            },
    {
        let r = match self {
            EscrowError::InvalidIdentity(Role::Buyer) => "invalid buyer identity",
            EscrowError::InvalidIdentity(Role::Seller) => "invalid seller identity",
            EscrowError::InvalidIdentity(Role::Arbitrator) => "invalid arbitrator identity",
            EscrowError::ScriptConstructionError => "escrow script construction failed",
            EscrowError::InvalidAmount => "amount must be a positive satoshi value",
            EscrowError::SignatureVerificationFailed => "signature verification failed",
            EscrowError::InsufficientSignatures => "signing threshold not yet met",
        };
        proof {
            reveal_strlit("invalid buyer identity");
            reveal_strlit("invalid seller identity");
            reveal_strlit("invalid arbitrator identity");
            reveal_strlit("escrow script construction failed");
            reveal_strlit("amount must be a positive satoshi value");
            reveal_strlit("signature verification failed");
            reveal_strlit("signing threshold not yet met");
        }
        r
    }
}

} // verus!
