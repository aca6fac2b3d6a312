//! Cross-checks of the engine's wire serialization and transaction
//! identifier against the bitcoin library's own decoder.

use bitcoin::secp256k1::{Message, PublicKey, Secp256k1, SecretKey};
use escrow_engine::engine::create_escrow_tx;
use escrow_engine::errors::Role;
use escrow_engine::identity::resolve;
use escrow_engine::session::SignedEscrowTx;
use escrow_engine::tx::UtxoReference;
use escrow_engine::wire::{serialize_legacy, serialize_signed, txid_hex};

const FUNDING_TXID: &str = "aa5e1e4baab89f3a32518a88c31bc87f618f76673e2cc77ab2127b7afdeda33b";

fn signed_tx() -> SignedEscrowTx {
    let secp = Secp256k1::new();
    let sk_a = SecretKey::from_slice(&[11u8; 32]).unwrap();
    let sk_b = SecretKey::from_slice(&[12u8; 32]).unwrap();
    let sk_c = SecretKey::from_slice(&[13u8; 32]).unwrap();
    let pub_a = PublicKey::from_secret_key(&secp, &sk_a).to_string();
    let pub_b = PublicKey::from_secret_key(&secp, &sk_b).to_string();
    let pub_c = PublicKey::from_secret_key(&secp, &sk_c).to_string();
    let funding = UtxoReference::from_hex(FUNDING_TXID, 1).unwrap();
    let mut session = create_escrow_tx(&pub_a, &pub_b, &pub_c, &funding, 250_000).unwrap();
    let digest = session.unsigned().sighash().clone();
    let sign = |sk: &SecretKey| {
        secp.sign_ecdsa(&Message::from_digest_slice(&digest).unwrap(), sk)
            .serialize_der()
            .to_vec()
    };
    let id_a = resolve(&pub_a, Role::Buyer).unwrap();
    let id_c = resolve(&pub_c, Role::Arbitrator).unwrap();
    let _ = session.submit_signature(&id_a, sign(&sk_a));
    session.submit_signature(&id_c, sign(&sk_c)).expect("complete")
}

#[test]
fn wire_bytes_decode_as_the_intended_transaction() {
    let stx = signed_tx();
    let bytes = serialize_signed(&stx);
    let tx: bitcoin::Transaction =
        bitcoin::consensus::encode::deserialize(&bytes).expect("decodable wire form");
    assert_eq!(tx.version.0, 2);
    assert_eq!(tx.lock_time.to_consensus_u32(), 0);
    assert_eq!(tx.input.len(), 1);
    assert_eq!(tx.input[0].previous_output.txid.to_string(), FUNDING_TXID);
    assert_eq!(tx.input[0].previous_output.vout, 1);
    assert_eq!(tx.input[0].sequence.0, 0xFFFF_FFFF);
    assert!(tx.input[0].script_sig.is_empty());
    assert_eq!(tx.input[0].witness.len(), 4);
    assert_eq!(tx.input[0].witness.nth(0).unwrap().len(), 0);
    assert_eq!(tx.output.len(), 1);
    assert_eq!(tx.output[0].value.to_sat(), 250_000);
    // The output is a pay-to-witness-script-hash of the escrow script.
    let witness_script =
        bitcoin::ScriptBuf::from(tx.input[0].witness.nth(3).unwrap().to_vec());
    assert_eq!(
        tx.output[0].script_pubkey,
        bitcoin::ScriptBuf::new_p2wsh(&witness_script.wscript_hash())
    );
}

#[test]
fn txid_matches_the_library_computation() {
    let stx = signed_tx();
    let bytes = serialize_signed(&stx);
    let tx: bitcoin::Transaction = bitcoin::consensus::encode::deserialize(&bytes).unwrap();
    assert_eq!(txid_hex(&stx), tx.compute_txid().to_string());
}

#[test]
fn sighash_matches_the_library_bip143_computation() {
    let secp = Secp256k1::new();
    let sk_a = SecretKey::from_slice(&[21u8; 32]).unwrap();
    let sk_b = SecretKey::from_slice(&[22u8; 32]).unwrap();
    let sk_c = SecretKey::from_slice(&[23u8; 32]).unwrap();
    let pub_a = PublicKey::from_secret_key(&secp, &sk_a).to_string();
    let pub_b = PublicKey::from_secret_key(&secp, &sk_b).to_string();
    let pub_c = PublicKey::from_secret_key(&secp, &sk_c).to_string();
    let funding = UtxoReference::from_hex(FUNDING_TXID, 2).unwrap();
    let session = create_escrow_tx(&pub_a, &pub_b, &pub_c, &funding, 77_777).unwrap();

    // The same single-input, single-output transaction, library-side.
    let tx = bitcoin::Transaction {
        version: bitcoin::transaction::Version(2),
        lock_time: bitcoin::absolute::LockTime::ZERO,
        input: vec![bitcoin::TxIn {
            previous_output: bitcoin::OutPoint {
                txid: FUNDING_TXID.parse().unwrap(),
                vout: 2,
            },
            script_sig: bitcoin::ScriptBuf::new(),
            sequence: bitcoin::Sequence(0xFFFF_FFFF),
            witness: bitcoin::Witness::new(),
        }],
        output: vec![bitcoin::TxOut {
            value: bitcoin::Amount::from_sat(77_777),
            script_pubkey: bitcoin::ScriptBuf::from(session.unsigned().script_pubkey().clone()),
        }],
    };
    let witness_script = bitcoin::ScriptBuf::from(session.policy().script().clone());
    let mut cache = bitcoin::sighash::SighashCache::new(&tx);
    let expected = cache
        .p2wsh_signature_hash(
            0,
            &witness_script,
            bitcoin::Amount::from_sat(77_777),
            bitcoin::sighash::EcdsaSighashType::All,
        )
        .unwrap();
    let expected_bytes: &[u8] = expected.as_ref();
    assert_eq!(session.unsigned().sighash().as_slice(), expected_bytes);
}

#[test]
fn legacy_form_is_the_wire_form_without_witness_data() {
    let stx = signed_tx();
    let legacy = serialize_legacy(&stx);
    let wire = serialize_signed(&stx);
    // Same version prefix; marker and flag distinguish the forms.
    assert_eq!(legacy[0..4], wire[0..4]);
    assert_eq!(wire[4], 0x00);
    assert_eq!(wire[5], 0x01);
    // Same lock time suffix.
    assert_eq!(legacy[legacy.len() - 4..], wire[wire.len() - 4..]);
    assert!(legacy.len() < wire.len());
    // The legacy form still decodes as the same transaction skeleton.
    let tx: bitcoin::Transaction = bitcoin::consensus::encode::deserialize(&legacy).unwrap();
    assert_eq!(tx.input.len(), 1);
    assert_eq!(tx.output.len(), 1);
    assert!(tx.input[0].witness.is_empty());
}
