//! The unsigned escrow transaction: one input spending the caller-supplied
//! funding outpoint, one output paying the escrow amount to the policy's
//! deposit address, and the exact signature hash each participant must
//! sign.
//!
//! The signature hash follows the segregated-witness commitment style: it
//! commits to the outpoint, the escrow locking script, the amount and the
//! output, so a signature is valid for this transaction alone and cannot be
//! replayed across transactions.

use vstd::prelude::*;
use crate::bytes::{u32_le, u64_le, compact_size, push_u32_le, push_u64_le, push_compact_size,
    push_all, copy_bytes, reversed, hex_decode, is_hex_seq, decode_hex};
use crate::errors::EscrowError;
use crate::hashes::{sha256, dsha256, sha256_of, dsha256_of};
use crate::policy::EscrowPolicy;

verus! {

/// Transaction version used by the engine.
pub const TX_VERSION: u32 = 2;

/// The "final" input sequence, disabling relative-timelock semantics.
pub const SEQUENCE_FINAL: u32 = 0xFFFF_FFFF;

/// Lock time of the escrow transaction: none.
pub const LOCK_TIME: u32 = 0;

/// Signature-hash type committed to by every signature: ALL.
pub const SIGHASH_ALL: u32 = 1;

/// Witness opcode 0 followed by a 32-byte push: the script public key of a
/// pay-to-witness-script-hash output.
pub open spec fn p2wsh_script_pubkey(script_hash: Seq<u8>) -> Seq<u8> {
    seq![0u8, 32u8] + script_hash
}

/// The serialized outpoint: the funding transaction id (internal byte
/// order) followed by the output index, little endian.
pub open spec fn outpoint_bytes(txid: Seq<u8>, vout: u32) -> Seq<u8> {
    txid + u32_le(vout)
}

/// One serialized transaction output: amount, then the length-prefixed
/// script public key.
pub open spec fn output_bytes(amount: u64, script_pubkey: Seq<u8>) -> Seq<u8> {
    u64_le(amount) + compact_size(script_pubkey.len() as u64) + script_pubkey
}

/// The signature-hash preimage of the single escrow input, in the
/// segregated-witness commitment style: version, the doubled digests of
/// the outpoint list and the sequence list, the outpoint itself, the
/// length-prefixed escrow locking script, the committed amount, the
/// sequence, the doubled digest of the output list, the lock time, and the
/// signature-hash type.
#[verifier::opaque]
pub open spec fn sighash_preimage(
    txid: Seq<u8>,
    vout: u32,
    witness_script: Seq<u8>,
    amount: u64,
) -> Seq<u8> {
    u32_le(TX_VERSION) + dsha256_of(outpoint_bytes(txid, vout)) + dsha256_of(u32_le(SEQUENCE_FINAL))
        + outpoint_bytes(txid, vout) + compact_size(witness_script.len() as u64) + witness_script
        + u64_le(amount) + u32_le(SEQUENCE_FINAL) + dsha256_of(
        output_bytes(amount, p2wsh_script_pubkey(sha256_of(witness_script))),
    ) + u32_le(LOCK_TIME) + u32_le(SIGHASH_ALL)
}

/// The signature hash itself: the doubled SHA-256 digest of the preimage.
/// This is the only value the signing coordinator verifies signatures
/// against.
pub open spec fn sighash_of(txid: Seq<u8>, vout: u32, witness_script: Seq<u8>, amount: u64) -> Seq<
    u8,
> {
    dsha256_of(sighash_preimage(txid, vout, witness_script, amount))
}

// ---------------------------------------------------------------------------
// The funding reference
// ---------------------------------------------------------------------------

/// A reference to the funds being spent: previous transaction id (internal
/// byte order) and output index. Supplied by the caller; the engine does
/// not discover unspent outputs itself.
#[derive(Debug)]
pub struct UtxoReference {
    pub(crate) txid: Vec<u8>,
    pub(crate) vout: u32,
}

impl UtxoReference {
    /// The transaction id bytes, internal (little-endian) order.
    pub open(crate) spec fn spec_txid(&self) -> Seq<u8> {
        self.txid@
    }

    /// The output index.
    pub open(crate) spec fn spec_vout(&self) -> u32 {
        self.vout
    }

    /// The reference's invariant: a 32-byte transaction id.
    pub open spec fn wf(&self) -> bool {
        self.spec_txid().len() == 32
    }

    /// Builds a reference from raw transaction-id bytes in internal order.
    /// Returns `None` unless the id is exactly 32 bytes.
    pub fn from_bytes(txid: Vec<u8>, vout: u32) -> (r: Option<UtxoReference>)
        ensures
            match r {
                Some(u) => txid@.len() == 32 && u.spec_txid() == txid@ && u.spec_vout() == vout
                    && u.wf(),
                None => txid@.len() != 32,
            },
    {
        if txid.len() == 32 {
            Some(UtxoReference { txid, vout })
        } else {
            None
        }
    }

    /// Builds a reference from the display form of a transaction id: 64
    /// hexadecimal digits, byte-reversed relative to the internal order.
    pub fn from_hex(txid_hex: &str, vout: u32) -> (r: Option<UtxoReference>)
        ensures
            match r {
                Some(u) => txid_hex@.len() == 64 && is_hex_seq(txid_hex@) && u.spec_txid()
                    == hex_decode(txid_hex@).reverse() && u.spec_vout() == vout && u.wf(),
                None => !(txid_hex@.len() == 64 && is_hex_seq(txid_hex@)),
            },
    {
        let n = txid_hex.unicode_len();
        if n != 64 {
            return None;
        }
        match decode_hex(txid_hex) {
            Some(v) => {
                proof {
                    crate::bytes::lemma_hex_decode_len(txid_hex@);
                }
                let rv = reversed(&v);
                Some(UtxoReference { txid: rv, vout })
            },
            None => None,
        }
    }

    /// The transaction id bytes.
    pub fn txid_bytes(&self) -> (r: &Vec<u8>)
        ensures
            r@ == self.spec_txid(),
    {
        &self.txid
    }

    /// The output index.
    pub fn vout(&self) -> (r: u32)
        ensures
            r == self.spec_vout(),
    {
        self.vout
    }

    /// A fresh copy of this reference.
    pub fn duplicate(&self) -> (r: UtxoReference)
        ensures
            r.spec_txid() == self.spec_txid(),
            r.spec_vout() == self.spec_vout(),
    {
        UtxoReference { txid: copy_bytes(&self.txid), vout: self.vout }
    }
}

// ---------------------------------------------------------------------------
// The unsigned transaction
// ---------------------------------------------------------------------------

/// The unsigned escrow transaction: one input referencing the funding
/// outpoint (signature fields empty, sequence final), one output paying
/// the amount to the policy's deposit script, and the precomputed
/// signature hash of the single input. No other component recomputes the
/// hash.
#[derive(Debug)]
pub struct UnsignedEscrowTx {
    pub(crate) funding: UtxoReference,
    pub(crate) amount: u64,
    pub(crate) script_pubkey: Vec<u8>,
    pub(crate) sighash: Vec<u8>,
}

impl UnsignedEscrowTx {
    /// The funding transaction id, internal order.
    pub open(crate) spec fn spec_txid(&self) -> Seq<u8> {
        self.funding.spec_txid()
    }

    /// The funding output index.
    pub open(crate) spec fn spec_vout(&self) -> u32 {
        self.funding.spec_vout()
    }

    /// The escrow amount, in satoshis.
    pub open(crate) spec fn spec_amount(&self) -> u64 {
        self.amount
    }

    /// The output's script public key.
    pub open(crate) spec fn spec_script_pubkey(&self) -> Seq<u8> {
        self.script_pubkey@
    }

    /// The signature hash of the single input.
    pub open(crate) spec fn spec_sighash(&self) -> Seq<u8> {
        self.sighash@
    }

    /// The transaction's invariant, relative to the escrow locking script
    /// it pays into: positive amount, 32-byte funding id, the output pays
    /// the script's hash, and the stored signature hash is exactly the
    /// commitment defined by [`sighash_of`].
    pub open spec fn wf_for(&self, witness_script: Seq<u8>) -> bool {
        &&& self.spec_txid().len() == 32
        &&& self.spec_amount() > 0
        &&& self.spec_script_pubkey() == p2wsh_script_pubkey(sha256_of(witness_script))
        &&& self.spec_sighash() == sighash_of(
            self.spec_txid(),
            self.spec_vout(),
            witness_script,
            self.spec_amount(),
        )
    }

    /// The escrow amount, in satoshis.
    pub fn amount(&self) -> (r: u64)
        ensures
            r == self.spec_amount(),
    {
        self.amount
    }

    /// The signature hash each participant must sign.
    pub fn sighash(&self) -> (r: &Vec<u8>)
        ensures
            r@ == self.spec_sighash(),
    {
        &self.sighash
    }

    /// The output's script public key.
    pub fn script_pubkey(&self) -> (r: &Vec<u8>)
        ensures
            r@ == self.spec_script_pubkey(),
    {
        &self.script_pubkey
    }

    /// The funding reference.
    pub fn funding(&self) -> (r: &UtxoReference)
        ensures
            r.spec_txid() == self.spec_txid(),
            r.spec_vout() == self.spec_vout(),
    {
        &self.funding
    }
}

/// Assembles the unsigned escrow transaction for `policy`, spending
/// `funding` and paying `amount` satoshis to the policy's deposit script.
/// Rejects a zero amount with `InvalidAmount`; any positive 64-bit amount
/// is accepted (the caller supplies an already fee-adjusted value and
/// vouches that it does not exceed the funding output). Also computes the
/// input's signature hash, the single value the signing coordinator will
/// verify signatures against.
pub fn build_unsigned(policy: &EscrowPolicy, funding: &UtxoReference, amount: u64) -> (r: Result<
    UnsignedEscrowTx,
    EscrowError,
>)
    requires
        policy.wf(),
        funding.wf(),
    ensures
        match r {
            Ok(tx) => {
                &&& amount > 0
                &&& tx.wf_for(policy.spec_script())
                &&& tx.spec_txid() == funding.spec_txid()
                &&& tx.spec_vout() == funding.spec_vout()
                &&& tx.spec_amount() == amount
            },
            Err(e) => e == EscrowError::InvalidAmount && amount == 0,
        },
{
    if amount == 0 {
        return Err(EscrowError::InvalidAmount);
    }
    let script_hash = sha256(policy.script());
    let mut script_pubkey: Vec<u8> = Vec::new();
    script_pubkey.push(0u8);
    script_pubkey.push(32u8);
    push_all(&mut script_pubkey, &script_hash);
    proof {
        assert(script_pubkey@ =~= p2wsh_script_pubkey(sha256_of(policy.spec_script())));
    }

    let mut outpoint: Vec<u8> = Vec::new();
    push_all(&mut outpoint, funding.txid_bytes());
    push_u32_le(&mut outpoint, funding.vout());
    proof {
        assert(outpoint@ =~= outpoint_bytes(funding.spec_txid(), funding.spec_vout()));
    }
    let hash_prevouts = dsha256(&outpoint);

    let mut sequence_bytes: Vec<u8> = Vec::new();
    push_u32_le(&mut sequence_bytes, SEQUENCE_FINAL);
    let hash_sequence = dsha256(&sequence_bytes);

    let mut output: Vec<u8> = Vec::new();
    push_u64_le(&mut output, amount);
    push_compact_size(&mut output, script_pubkey.len() as u64);
    push_all(&mut output, &script_pubkey);
    proof {
        assert(output@ =~= output_bytes(amount, script_pubkey@));
    }
    let hash_outputs = dsha256(&output);

    let witness_script = policy.script();
    let mut preimage: Vec<u8> = Vec::new();
    push_u32_le(&mut preimage, TX_VERSION);
    push_all(&mut preimage, &hash_prevouts);
    push_all(&mut preimage, &hash_sequence);
    push_all(&mut preimage, &outpoint);
    push_compact_size(&mut preimage, witness_script.len() as u64);
    push_all(&mut preimage, witness_script);
    push_u64_le(&mut preimage, amount);
    push_u32_le(&mut preimage, SEQUENCE_FINAL);
    push_all(&mut preimage, &hash_outputs);
    push_u32_le(&mut preimage, LOCK_TIME);
    push_u32_le(&mut preimage, SIGHASH_ALL);
    proof {
        reveal(sighash_preimage);
        assert(preimage@ =~= sighash_preimage(
            funding.spec_txid(),
            funding.spec_vout(),
            policy.spec_script(),
            amount,
        ));
    }
    let sighash = dsha256(&preimage);

    Ok(
        UnsignedEscrowTx {
            funding: funding.duplicate(),
            amount,
            script_pubkey,
            sighash,
        },
    )
}

} // verus!
