//! The engine's one-call entry point: from the three identity strings, a
//! funding reference and an amount to an open signing session.
//!
//! Each stage only accepts validated output from the prior stage; the first
//! failure aborts the construction with its specific error, the offending
//! field named.

use vstd::prelude::*;
use crate::errors::{EscrowError, Role};
use crate::identity::{resolve_participants, pubkey_parse};
use crate::policy::build_policy;
use crate::session::{SigningSession, collect, empty_sigs};
use crate::tx::{UtxoReference, build_unsigned};

verus! {

/// Resolves the three identities, derives the escrow policy, builds the
/// unsigned transaction spending `funding`, and opens a signing session
/// for it.
///
/// Fails with the field-tagged `InvalidIdentity` of the first identity
/// that does not resolve (buyer first, then seller, then arbitrator), and
/// with `InvalidAmount` on a zero amount; any positive amount is accepted.
/// On success the session starts with no signatures collected, its policy
/// is built from exactly the three resolved keys, and its transaction
/// spends `funding` and pays `amount`.
pub fn create_escrow_tx(
    buyer: &str,
    seller: &str,
    arbitrator: &str,
    funding: &UtxoReference,
    amount: u64,
) -> (r: Result<SigningSession, EscrowError>)
    requires
        funding.wf(),
    ensures
        match r {
            Ok(session) => {
                &&& session.wf()
                &&& amount > 0
                &&& pubkey_parse(buyer@) == Some(session.spec_policy().spec_buyer())
                &&& pubkey_parse(seller@) == Some(session.spec_policy().spec_seller())
                &&& pubkey_parse(arbitrator@) == Some(session.spec_policy().spec_arbitrator())
                &&& session.spec_unsigned().spec_txid() == funding.spec_txid()
                &&& session.spec_unsigned().spec_vout() == funding.spec_vout()
                &&& session.spec_unsigned().spec_amount() == amount
                &&& session.spec_sigs() == empty_sigs()
            },
            Err(e) => {
                ||| e == EscrowError::InvalidIdentity(Role::Buyer) && pubkey_parse(buyer@) is None
                ||| e == EscrowError::InvalidIdentity(Role::Seller) && pubkey_parse(buyer@) is Some
                    && pubkey_parse(seller@) is None
                ||| e == EscrowError::InvalidIdentity(Role::Arbitrator) && pubkey_parse(buyer@)
                    is Some && pubkey_parse(seller@) is Some && pubkey_parse(arbitrator@) is None
                ||| e == EscrowError::InvalidAmount && pubkey_parse(buyer@) is Some && pubkey_parse(
                    seller@,
                ) is Some && pubkey_parse(arbitrator@) is Some && amount == 0
            },
        },
{
    let (b, s, a) = resolve_participants(buyer, seller, arbitrator)?;
    let policy = match build_policy(&b, &s, &a) {
        Ok(p) => p,
        Err(e) => {
            proof {
                assert(false);
            }
            return Err(e);
        },
    };
    let unsigned = build_unsigned(&policy, funding, amount)?;
    Ok(collect(unsigned, policy))
}

} // verus!
