//! Canonical wire serialization of the finished escrow transaction, and its
//! transaction identifier.
//!
//! The identifier is the doubled SHA-256 digest of the legacy serialization
//! (without witness data), rendered as hexadecimal in reversed byte order —
//! the display convention of the network. The broadcast form is the
//! segregated-witness serialization, with marker and flag bytes and the
//! witness stack of the single input.

use vstd::prelude::*;
use crate::bytes::{u32_le, compact_size, push_u32_le, push_u64_le, push_compact_size, push_all,
    reversed, hex_of_bytes, hex_str};
use crate::hashes::{dsha256, dsha256_of};
use crate::session::SignedEscrowTx;
use crate::tx::{TX_VERSION, SEQUENCE_FINAL, LOCK_TIME, outpoint_bytes, output_bytes};

verus! {

/// One witness stack item on the wire: its length, then its bytes.
pub open spec fn witness_item(item: Seq<u8>) -> Seq<u8> {
    compact_size(item.len() as u64) + item
}

/// A witness stack on the wire: each item in order, length-prefixed.
pub open spec fn witness_items(w: Seq<Seq<u8>>) -> Seq<u8>
    decreases w.len(),
{
    if w.len() == 0 {
        Seq::empty()
    } else {
        witness_items(w.drop_last()) + witness_item(w.last())
    }
}

/// The legacy (witness-free) serialization of the escrow transaction:
/// version, the single input (outpoint, empty signature script, final
/// sequence), the single output, lock time. The transaction identifier is
/// the doubled SHA-256 digest of exactly these bytes.
#[verifier::opaque]
pub open spec fn legacy_tx_bytes(txid: Seq<u8>, vout: u32, amount: u64, spk: Seq<u8>) -> Seq<u8> {
    u32_le(TX_VERSION) + compact_size(1) + outpoint_bytes(txid, vout) + compact_size(0) + u32_le(
        SEQUENCE_FINAL,
    ) + compact_size(1) + output_bytes(amount, spk) + u32_le(LOCK_TIME)
}

/// The segregated-witness serialization of the escrow transaction:
/// version, marker and flag, the single input, the single output, the
/// input's witness stack, lock time. These are the exact bytes submitted
/// to the node.
#[verifier::opaque]
pub open spec fn wire_tx_bytes(
    txid: Seq<u8>,
    vout: u32,
    amount: u64,
    spk: Seq<u8>,
    witness: Seq<Seq<u8>>,
) -> Seq<u8> {
    u32_le(TX_VERSION) + seq![0u8, 1u8] + compact_size(1) + outpoint_bytes(txid, vout)
        + compact_size(0) + u32_le(SEQUENCE_FINAL) + compact_size(1) + output_bytes(amount, spk)
        + compact_size(witness.len() as u64) + witness_items(witness) + u32_le(LOCK_TIME)
}

/// The displayed transaction identifier of a legacy serialization: the
/// doubled SHA-256 digest in reversed byte order, as hexadecimal.
pub open spec fn txid_display(legacy: Seq<u8>) -> Seq<char> {
    hex_str(dsha256_of(legacy).reverse())
}

/// Appends one length-prefixed witness item.
fn push_witness_item(out: &mut Vec<u8>, item: &Vec<u8>)
    ensures
        final(out)@ == old(out)@ + witness_item(item@),
{
    push_compact_size(out, item.len() as u64);
    push_all(out, item);
    proof {
        assert(out@ =~= old(out)@ + witness_item(item@));
    }
}

/// Serializes the common input and output section shared by the legacy and
/// witness forms: the single input (outpoint, empty signature script,
/// final sequence) and the single output.
fn push_body(out: &mut Vec<u8>, stx: &SignedEscrowTx)
    ensures
        final(out)@ == old(out)@ + compact_size(1) + outpoint_bytes(
            stx.spec_txid(),
            stx.spec_vout(),
        ) + compact_size(0) + u32_le(SEQUENCE_FINAL) + compact_size(1) + output_bytes(
            stx.spec_amount(),
            stx.spec_script_pubkey(),
        ),
{
    push_compact_size(out, 1);
    push_all(out, &stx.funding.txid);
    push_u32_le(out, stx.funding.vout);
    push_compact_size(out, 0);
    push_u32_le(out, SEQUENCE_FINAL);
    push_compact_size(out, 1);
    push_u64_le(out, stx.amount);
    push_compact_size(out, stx.script_pubkey.len() as u64);
    push_all(out, &stx.script_pubkey);
    proof {
        assert(out@ =~= old(out)@ + compact_size(1) + outpoint_bytes(
            stx.spec_txid(),
            stx.spec_vout(),
        ) + compact_size(0) + u32_le(SEQUENCE_FINAL) + compact_size(1) + output_bytes(
            stx.spec_amount(),
            stx.spec_script_pubkey(),
        ));
    }
}

/// Serializes the finished transaction in the legacy (witness-free) form,
/// the form its identifier is computed over.
pub fn serialize_legacy(stx: &SignedEscrowTx) -> (r: Vec<u8>)
    ensures
        r@ == legacy_tx_bytes(
            stx.spec_txid(),
            stx.spec_vout(),
            stx.spec_amount(),
            stx.spec_script_pubkey(),
        ),
{
    let mut out: Vec<u8> = Vec::new();
    push_u32_le(&mut out, TX_VERSION);
    push_body(&mut out, stx);
    push_u32_le(&mut out, LOCK_TIME);
    proof {
        reveal(legacy_tx_bytes);
        assert(out@ =~= legacy_tx_bytes(
            stx.spec_txid(),
            stx.spec_vout(),
            stx.spec_amount(),
            stx.spec_script_pubkey(),
        ));
    }
    out
}

/// Serializes the finished transaction in the segregated-witness wire
/// form: the exact bytes to hand to the node, and the only form ever
/// broadcast.
#[verifier::rlimit(50)]
pub fn serialize_signed(stx: &SignedEscrowTx) -> (r: Vec<u8>)
    ensures
        r@ == wire_tx_bytes(
            stx.spec_txid(),
            stx.spec_vout(),
            stx.spec_amount(),
            stx.spec_script_pubkey(),
            stx.spec_witness(),
        ),
{
    let mut out: Vec<u8> = Vec::new();
    push_u32_le(&mut out, TX_VERSION);
    out.push(0u8);
    out.push(1u8);
    proof {
        assert(out@ =~= u32_le(TX_VERSION) + seq![0u8, 1u8]);
    }
    let ghost t_head = u32_le(TX_VERSION) + seq![0u8, 1u8];
    push_body(&mut out, stx);
    let ghost t_body = t_head + compact_size(1) + outpoint_bytes(stx.spec_txid(), stx.spec_vout())
        + compact_size(0) + u32_le(SEQUENCE_FINAL) + compact_size(1) + output_bytes(
        stx.spec_amount(),
        stx.spec_script_pubkey(),
    );
    push_compact_size(&mut out, 4);
    let ghost t_cnt = t_body + compact_size(4);
    let empty_item: Vec<u8> = Vec::new();
    push_witness_item(&mut out, &empty_item);
    push_witness_item(&mut out, &stx.sig_a);
    push_witness_item(&mut out, &stx.sig_b);
    push_witness_item(&mut out, &stx.witness_script);
    proof {
        let w = stx.spec_witness();
        let e = Seq::<u8>::empty();
        let wi_e = witness_item(e);
        let wi_a = witness_item(stx.sig_a@);
        let wi_b = witness_item(stx.sig_b@);
        let wi_s = witness_item(stx.witness_script@);
        assert(out@ == t_cnt + (wi_e + wi_a + wi_b + wi_s)) by {
            vstd::seq_lib::lemma_concat_associative::<u8>(t_cnt, wi_e, wi_a);
            vstd::seq_lib::lemma_concat_associative::<u8>(t_cnt, wi_e + wi_a, wi_b);
            vstd::seq_lib::lemma_concat_associative::<u8>(t_cnt, wi_e + wi_a + wi_b, wi_s);
        }
        assert(witness_items(w) == wi_e + wi_a + wi_b + wi_s) by {
            assert(seq![e].drop_last() =~= Seq::<Seq<u8>>::empty());
            assert(witness_items(Seq::<Seq<u8>>::empty()) =~= Seq::<u8>::empty());
            assert(witness_items(seq![e]) =~= wi_e);
            assert(seq![e, stx.sig_a@].drop_last() =~= seq![e]);
            assert(witness_items(seq![e, stx.sig_a@]) =~= wi_e + wi_a);
            assert(seq![e, stx.sig_a@, stx.sig_b@].drop_last() =~= seq![e, stx.sig_a@]);
            assert(witness_items(seq![e, stx.sig_a@, stx.sig_b@]) =~= wi_e + wi_a + wi_b);
            assert(w.drop_last() =~= seq![e, stx.sig_a@, stx.sig_b@]);
            assert(witness_items(w) =~= wi_e + wi_a + wi_b + wi_s);
        }
        assert(out@ == t_cnt + witness_items(w));
    }
    let ghost t_wit = t_cnt + witness_items(stx.spec_witness());
    push_u32_le(&mut out, LOCK_TIME);
    proof {
        let w = stx.spec_witness();
        assert(w.len() == 4);
        assert(compact_size(w.len() as u64) == compact_size(4));
        reveal(wire_tx_bytes);
        assert(out@ == wire_tx_bytes(
            stx.spec_txid(),
            stx.spec_vout(),
            stx.spec_amount(),
            stx.spec_script_pubkey(),
            w,
        ));
    }
    out
}

/// The finished transaction's identifier, in the display convention of the
/// network: the doubled SHA-256 digest of the legacy serialization, byte
/// order reversed, as hexadecimal.
pub fn txid_hex(stx: &SignedEscrowTx) -> (r: String)
    ensures
        r@ == txid_display(
            legacy_tx_bytes(
                stx.spec_txid(),
                stx.spec_vout(),
                stx.spec_amount(),
                stx.spec_script_pubkey(),
            ),
        ),
{
    let legacy = serialize_legacy(stx);
    let digest = dsha256(&legacy);
    let rev = reversed(&digest);
    hex_of_bytes(&rev)
}

} // verus!
