//! The signing coordinator: collects partial signatures for one unsigned
//! escrow transaction until two distinct participants have validly signed,
//! then assembles the finished transaction's witness.
//!
//! Each submitted signature is verified against the transaction's signature
//! hash and the claimed signer's public key before it counts. Resubmission
//! by the same identity replaces that identity's earlier signature (last
//! valid one wins) and never double-counts toward the threshold; the laws
//! at the end of this file pin that down.

use vstd::prelude::*;
use crate::bytes::{bytes_eq, copy_bytes};
use crate::errors::EscrowError;
use crate::identity::Identity;
use crate::policy::{EscrowPolicy, sort3, sort3_vec};
use crate::tx::{UnsignedEscrowTx, UtxoReference, p2wsh_script_pubkey};
use crate::hashes::sha256_of;

verus! {

/// Whether ECDSA verification accepts `sig` as a signature of `digest`
/// under `key`. A deterministic function of the three byte strings.
pub uninterp spec fn ecdsa_verifies(key: Seq<u8>, digest: Seq<u8>, sig: Seq<u8>) -> bool;

/// Relies on `secp256k1`'s `verify_ecdsa`, with `PublicKey::from_slice`,
/// `ecdsa::Signature::from_der` and `Message::from_digest_slice` decoding
/// the arguments: verification is a deterministic function of key, digest
/// and signature bytes, and bytes that do not decode verify as false.
#[verifier::external_body]
fn verify_signature(key: &Vec<u8>, digest: &Vec<u8>, sig: &Vec<u8>) -> (r: bool)
    ensures
        r == ecdsa_verifies(key@, digest@, sig@),
{
    let ctx = bitcoin::secp256k1::Secp256k1::verification_only();
    match (
        bitcoin::secp256k1::PublicKey::from_slice(key.as_slice()),
        bitcoin::secp256k1::ecdsa::Signature::from_der(sig.as_slice()),
        bitcoin::secp256k1::Message::from_digest_slice(digest.as_slice()),
    ) {
        (Ok(pk), Ok(s), Ok(msg)) => ctx.verify_ecdsa(&msg, &s, &pk).is_ok(),
        _ => false,
    }
}

/// The signature bytes of a slot, if filled.
pub open spec fn sig_view(o: Option<Vec<u8>>) -> Option<Seq<u8>> {
    match o {
        Some(v) => Some(v@),
        None => None,
    }
}

/// How many of the three signature slots are filled.
pub open spec fn sig_count(sigs: Seq<Option<Seq<u8>>>) -> int
    recommends
        sigs.len() == 3,
{
    (if sigs[0] is Some {
        1int
    } else {
        0int
    }) + (if sigs[1] is Some {
        1int
    } else {
        0int
    }) + (if sigs[2] is Some {
        1int
    } else {
        0int
    })
}

/// Whether the 2-of-3 threshold is met: at least two distinct slots hold a
/// signature.
pub open spec fn threshold_met(sigs: Seq<Option<Seq<u8>>>) -> bool {
    sig_count(sigs) >= 2
}

/// The empty signature state of a fresh session.
pub open spec fn empty_sigs() -> Seq<Option<Seq<u8>>> {
    seq![None, None, None]
}

/// The signatures of the two lowest filled slots, in slot (canonical key)
/// order.
pub open spec fn two_sigs(sigs: Seq<Option<Seq<u8>>>) -> Seq<Seq<u8>>
    recommends
        sigs.len() == 3,
        threshold_met(sigs),
{
    if sigs[0] is Some && sigs[1] is Some {
        seq![sigs[0]->0, sigs[1]->0]
    } else if sigs[0] is Some {
        seq![sigs[0]->0, sigs[2]->0]
    } else {
        seq![sigs[1]->0, sigs[2]->0]
    }
}

/// The witness stack the locking script expects: one empty placeholder
/// element (consumed by `OP_CHECKMULTISIG`), the two signatures in the
/// order their keys stand in the script, then the script itself.
pub open spec fn witness_stack(sigs: Seq<Option<Seq<u8>>>, witness_script: Seq<u8>) -> Seq<Seq<u8>>
    recommends
        sigs.len() == 3,
        threshold_met(sigs),
{
    seq![Seq::<u8>::empty()] + two_sigs(sigs) + seq![witness_script]
}

// ---------------------------------------------------------------------------
// The finished transaction
// ---------------------------------------------------------------------------

/// The unsigned escrow transaction plus a complete witness: two valid
/// signatures assembled in the locking script's expected order. Immutable
/// once assembled; this is the only form ever broadcast.
#[derive(Debug)]
pub struct SignedEscrowTx {
    pub(crate) funding: UtxoReference,
    pub(crate) amount: u64,
    pub(crate) script_pubkey: Vec<u8>,
    pub(crate) sig_a: Vec<u8>,
    pub(crate) sig_b: Vec<u8>,
    pub(crate) witness_script: Vec<u8>,
}

impl SignedEscrowTx {
    /// The funding transaction id, internal order.
    pub open(crate) spec fn spec_txid(&self) -> Seq<u8> {
        self.funding.spec_txid()
    }

    /// The funding output index.
    pub open(crate) spec fn spec_vout(&self) -> u32 {
        self.funding.spec_vout()
    }

    /// The escrow amount, in satoshis.
    pub open(crate) spec fn spec_amount(&self) -> u64 {
        self.amount
    }

    /// The output's script public key.
    pub open(crate) spec fn spec_script_pubkey(&self) -> Seq<u8> {
        self.script_pubkey@
    }

    /// The witness script (the escrow locking script).
    pub open(crate) spec fn spec_witness_script(&self) -> Seq<u8> {
        self.witness_script@
    }

    /// The witness stack of the single input.
    pub open(crate) spec fn spec_witness(&self) -> Seq<Seq<u8>> {
        seq![Seq::<u8>::empty(), self.sig_a@, self.sig_b@, self.witness_script@]
    }

    /// The finished transaction's invariant: the funding id is 32 bytes,
    /// the amount positive, and the output pays the witness script's hash.
    pub open spec fn wf(&self) -> bool {
        &&& self.spec_txid().len() == 32
        &&& self.spec_amount() > 0
        &&& self.spec_script_pubkey() == p2wsh_script_pubkey(sha256_of(self.spec_witness_script()))
    }

    /// The escrow amount, in satoshis.
    pub fn amount(&self) -> (r: u64)
        ensures
            r == self.spec_amount(),
    {
        self.amount
    }
}

// ---------------------------------------------------------------------------
// The session
// ---------------------------------------------------------------------------

/// A pending signing session: the unsigned transaction, the policy it pays
/// into, the three participant keys in canonical script order, and the
/// signatures collected so far, one slot per key.
#[derive(Debug)]
pub struct SigningSession {
    pub(crate) policy: EscrowPolicy,
    pub(crate) unsigned: UnsignedEscrowTx,
    pub(crate) key0: Vec<u8>,
    pub(crate) key1: Vec<u8>,
    pub(crate) key2: Vec<u8>,
    pub(crate) sig0: Option<Vec<u8>>,
    pub(crate) sig1: Option<Vec<u8>>,
    pub(crate) sig2: Option<Vec<u8>>,
}

impl SigningSession {
    /// The session's policy.
    pub open(crate) spec fn spec_policy(&self) -> EscrowPolicy {
        self.policy
    }

    /// The session's unsigned transaction.
    pub open(crate) spec fn spec_unsigned(&self) -> UnsignedEscrowTx {
        self.unsigned
    }

    /// The participant key standing first in the script.
    pub open(crate) spec fn spec_key0(&self) -> Seq<u8> {
        self.key0@
    }

    /// The participant key standing second in the script.
    pub open(crate) spec fn spec_key1(&self) -> Seq<u8> {
        self.key1@
    }

    /// The participant key standing third in the script.
    pub open(crate) spec fn spec_key2(&self) -> Seq<u8> {
        self.key2@
    }

    /// The three signature slots, in canonical key order.
    pub open(crate) spec fn spec_sigs(&self) -> Seq<Option<Seq<u8>>> {
        seq![sig_view(self.sig0), sig_view(self.sig1), sig_view(self.sig2)]
    }

    /// The session's invariant: the policy is well formed, the unsigned
    /// transaction pays into the policy's script and carries that script's
    /// signature hash, and the three stored keys are the policy's keys in
    /// canonical order.
    pub open spec fn wf(&self) -> bool {
        &&& self.spec_policy().wf()
        &&& self.spec_unsigned().wf_for(self.spec_policy().spec_script())
        &&& (self.spec_key0(), self.spec_key1(), self.spec_key2()) == sort3(
            self.spec_policy().spec_buyer(),
            self.spec_policy().spec_seller(),
            self.spec_policy().spec_arbitrator(),
        )
    }

    /// Whether `k` is one of the three participant keys.
    pub open spec fn is_participant(&self, k: Seq<u8>) -> bool {
        k == self.spec_key0() || k == self.spec_key1() || k == self.spec_key2()
    }

    /// The signature slot a participant key belongs to: the first matching
    /// position in canonical key order.
    pub open spec fn slot_of(&self, k: Seq<u8>) -> int {
        if k == self.spec_key0() {
            0int
        } else if k == self.spec_key1() {
            1int
        } else {
            2int
        }
    }

    /// The unsigned transaction under signature.
    pub fn unsigned(&self) -> (r: &UnsignedEscrowTx)
        ensures
            r == self.spec_unsigned(),
    {
        &self.unsigned
    }

    /// The policy the session signs for.
    pub fn policy(&self) -> (r: &EscrowPolicy)
        ensures
            r == self.spec_policy(),
    {
        &self.policy
    }
}

/// Opens a signing session for `unsigned` under `policy`, with no
/// signatures collected.
pub fn collect(unsigned: UnsignedEscrowTx, policy: EscrowPolicy) -> (r: SigningSession)
    requires
        policy.wf(),
        unsigned.wf_for(policy.spec_script()),
    ensures
        r.wf(),
        r.spec_policy() == policy,
        r.spec_unsigned() == unsigned,
        r.spec_sigs() == empty_sigs(),
{
    let (k0, k1, k2) = sort3_vec(
        copy_bytes(policy.buyer().key_bytes()),
        copy_bytes(policy.seller().key_bytes()),
        copy_bytes(policy.arbitrator().key_bytes()),
    );
    let r = SigningSession {
        policy,
        unsigned,
        key0: k0,
        key1: k1,
        key2: k2,
        sig0: None,
        sig1: None,
        sig2: None,
    };
    proof {
        assert(r.spec_sigs() =~= empty_sigs());
    }
    r
}

impl SigningSession {
    /// Submits one participant's signature over the session's signature
    /// hash.
    ///
    /// A signature from a key that is not a participant, or one that does
    /// not verify against the signature hash under the claimed signer's
    /// key, is rejected with `SignatureVerificationFailed` and changes
    /// nothing. A valid signature replaces the signer's slot (so
    /// resubmission is idempotent and never double-counts). Once two
    /// distinct slots are filled the finished transaction is returned;
    /// before that the session reports `InsufficientSignatures` and stays
    /// open.
    #[verifier::rlimit(50)]
    pub fn submit_signature(&mut self, signer: &Identity, signature: Vec<u8>) -> (r: Result<
        SignedEscrowTx,
        EscrowError,
    >)
        requires
            old(self).wf(),
        ensures
            final(self).wf(),
            final(self).spec_policy() == old(self).spec_policy(),
            final(self).spec_unsigned() == old(self).spec_unsigned(),
            final(self).spec_key0() == old(self).spec_key0(),
            final(self).spec_key1() == old(self).spec_key1(),
            final(self).spec_key2() == old(self).spec_key2(),
            !old(self).is_participant(signer@) ==> {
                &&& r == Err::<SignedEscrowTx, EscrowError>(
                    EscrowError::SignatureVerificationFailed,
                )
                &&& final(self).spec_sigs() == old(self).spec_sigs()
            },
            old(self).is_participant(signer@) && !ecdsa_verifies(
                signer@,
                old(self).spec_unsigned().spec_sighash(),
                signature@,
            ) ==> {
                &&& r == Err::<SignedEscrowTx, EscrowError>(
                    EscrowError::SignatureVerificationFailed,
                )
                &&& final(self).spec_sigs() == old(self).spec_sigs()
            },
            old(self).is_participant(signer@) && ecdsa_verifies(
                signer@,
                old(self).spec_unsigned().spec_sighash(),
                signature@,
            ) ==> {
                &&& final(self).spec_sigs() == old(self).spec_sigs().update(
                    old(self).slot_of(signer@),
                    Some(signature@),
                )
                &&& (r is Ok <==> threshold_met(final(self).spec_sigs()))
                &&& (r is Err ==> r == Err::<SignedEscrowTx, EscrowError>(
                    EscrowError::InsufficientSignatures,
                ))
                &&& (r is Ok ==> {
                    let stx = r->Ok_0;
                    &&& stx.wf()
                    &&& stx.spec_txid() == old(self).spec_unsigned().spec_txid()
                    &&& stx.spec_vout() == old(self).spec_unsigned().spec_vout()
                    &&& stx.spec_amount() == old(self).spec_unsigned().spec_amount()
                    &&& stx.spec_script_pubkey() == old(self).spec_unsigned().spec_script_pubkey()
                    &&& stx.spec_witness_script() == old(self).spec_policy().spec_script()
                    &&& stx.spec_witness() == witness_stack(
                        final(self).spec_sigs(),
                        old(self).spec_policy().spec_script(),
                    )
                })
            },
    {
        let key = signer.key_bytes();
        let idx: usize = if bytes_eq(key, &self.key0) {
            0
        } else if bytes_eq(key, &self.key1) {
            1
        } else if bytes_eq(key, &self.key2) {
            2
        } else {
            return Err(EscrowError::SignatureVerificationFailed);
        };
        if !verify_signature(key, &self.unsigned.sighash, &signature) {
            return Err(EscrowError::SignatureVerificationFailed);
        }
        if idx == 0 {
            self.sig0 = Some(signature);
        } else if idx == 1 {
            self.sig1 = Some(signature);
        } else {
            self.sig2 = Some(signature);
        }
        proof {
            assert(self.spec_sigs() =~= old(self).spec_sigs().update(
                old(self).slot_of(signer@),
                Some(signature@),
            ));
        }
        let mut filled: usize = 0;
        if self.sig0.is_some() {
            filled = filled + 1;
        }
        if self.sig1.is_some() {
            filled = filled + 1;
        }
        if self.sig2.is_some() {
            filled = filled + 1;
        }
        if filled >= 2 {
            Ok(self.assemble())
        } else {
            Err(EscrowError::InsufficientSignatures)
        }
    }

    /// Assembles the finished transaction from the two lowest filled
    /// slots, in canonical key order, with the empty placeholder element
    /// the locking script's check expects.
    #[verifier::rlimit(50)]
    fn assemble(&self) -> (r: SignedEscrowTx)
        requires
            self.wf(),
            threshold_met(self.spec_sigs()),
        ensures
            r.wf(),
            r.spec_txid() == self.spec_unsigned().spec_txid(),
            r.spec_vout() == self.spec_unsigned().spec_vout(),
            r.spec_amount() == self.spec_unsigned().spec_amount(),
            r.spec_script_pubkey() == self.spec_unsigned().spec_script_pubkey(),
            r.spec_witness_script() == self.spec_policy().spec_script(),
            r.spec_witness() == witness_stack(self.spec_sigs(), self.spec_policy().spec_script()),
    {
        let (sig_a, sig_b) = match (&self.sig0, &self.sig1, &self.sig2) {
            (Some(a), Some(b), _) => (copy_bytes(a), copy_bytes(b)),
            (Some(a), None, Some(b)) => (copy_bytes(a), copy_bytes(b)),
            (None, Some(a), Some(b)) => (copy_bytes(a), copy_bytes(b)),
            _ => {
                proof {
                    assert(false);
                }
                (Vec::new(), Vec::new())
            },
        };
        let r = SignedEscrowTx {
            funding: self.unsigned.funding.duplicate(),
            amount: self.unsigned.amount,
            script_pubkey: copy_bytes(&self.unsigned.script_pubkey),
            sig_a,
            sig_b,
            witness_script: copy_bytes(self.policy.script()),
        };
        proof {
            assert(r.spec_witness() =~= witness_stack(
                self.spec_sigs(),
                self.spec_policy().spec_script(),
            ));
        }
        r
    }
}

// ---------------------------------------------------------------------------
// Laws of the threshold
// ---------------------------------------------------------------------------

/// Law: starting from any signature state, valid signatures recorded in
/// two distinct slots — two distinct participant identities — meet the
/// 2-of-3 threshold. Together with `submit_signature`'s postcondition
/// (which records each valid signature in the submitting identity's slot
/// and returns the finished transaction exactly when the threshold is
/// met), any two of the three identities' valid signatures complete the
/// session.
pub proof fn lemma_two_distinct_signers_complete(
    sigs: Seq<Option<Seq<u8>>>,
    i: int,
    j: int,
    s1: Seq<u8>,
    s2: Seq<u8>,
)
    requires
        sigs.len() == 3,
        0 <= i < 3,
        0 <= j < 3,
        i != j,
    ensures
        threshold_met(sigs.update(i, Some(s1)).update(j, Some(s2))),
{
}

/// Law: a single signer never meets the threshold alone. From a fresh
/// session, one signature — or any number of resubmissions into the same
/// slot, since a resubmission replaces rather than adds — leaves the
/// threshold unmet: a second, distinct identity's signature is still
/// required.
pub proof fn lemma_single_signer_insufficient(i: int, s1: Seq<u8>, s2: Seq<u8>)
    requires
        0 <= i < 3,
    ensures
        !threshold_met(empty_sigs().update(i, Some(s1))),
        !threshold_met(empty_sigs().update(i, Some(s1)).update(i, Some(s2))),
{
}

} // verus!
