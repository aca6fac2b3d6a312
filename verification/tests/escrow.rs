//! End-to-end tests of the escrow engine: identity resolution, policy
//! derivation, transaction building, signature collection and broadcast
//! classification, with real secp256k1 keys and signatures.

use bitcoin::secp256k1::{Message, PublicKey, Secp256k1, SecretKey};
use escrow_engine::broadcast::{classify_node_response, BroadcastResult, NodeResponse};
use escrow_engine::engine::create_escrow_tx;
use escrow_engine::errors::{EscrowError, Role};
use escrow_engine::identity::{resolve, resolve_participants, Identity};
use escrow_engine::policy::build_policy;
use escrow_engine::session::SigningSession;
use escrow_engine::tx::UtxoReference;
use escrow_engine::wire::txid_hex;

const FUNDING_TXID: &str = "4a5e1e4baab89f3a32518a88c31bc87f618f76673e2cc77ab2127b7afdeda33b";

fn keypair(seed: u8) -> (SecretKey, String) {
    let secp = Secp256k1::new();
    let sk = SecretKey::from_slice(&[seed; 32]).expect("valid secret key");
    let pk = PublicKey::from_secret_key(&secp, &sk);
    (sk, pk.to_string())
}

fn sign_digest(sk: &SecretKey, digest: &[u8]) -> Vec<u8> {
    let secp = Secp256k1::new();
    let msg = Message::from_digest_slice(digest).expect("32-byte digest");
    secp.sign_ecdsa(&msg, sk).serialize_der().to_vec()
}

fn funding() -> UtxoReference {
    UtxoReference::from_hex(FUNDING_TXID, 0).expect("valid funding reference")
}

fn session_with_identities() -> (SigningSession, Identity, Identity, Identity, SecretKey, SecretKey, SecretKey)
{
    let (sk_a, pub_a) = keypair(1);
    let (sk_b, pub_b) = keypair(2);
    let (sk_c, pub_c) = keypair(3);
    let session =
        create_escrow_tx(&pub_a, &pub_b, &pub_c, &funding(), 100_000).expect("session opens");
    let id_a = resolve(&pub_a, Role::Buyer).expect("buyer resolves");
    let id_b = resolve(&pub_b, Role::Seller).expect("seller resolves");
    let id_c = resolve(&pub_c, Role::Arbitrator).expect("arbitrator resolves");
    (session, id_a, id_b, id_c, sk_a, sk_b, sk_c)
}

#[test]
fn resolve_accepts_valid_key_and_rejects_malformed() {
    let (_, pub_a) = keypair(7);
    assert!(resolve(&pub_a, Role::Buyer).is_ok());
    assert_eq!(
        resolve("not hex at all", Role::Seller).unwrap_err(),
        EscrowError::InvalidIdentity(Role::Seller)
    );
    // Right length, but not a curve point: x = 0 has no point on secp256k1.
    let bogus = format!("02{}", "00".repeat(32));
    assert_eq!(
        resolve(&bogus, Role::Arbitrator).unwrap_err(),
        EscrowError::InvalidIdentity(Role::Arbitrator)
    );
}

#[test]
fn resolve_participants_tags_the_offending_field() {
    let (_, pub_a) = keypair(1);
    let (_, pub_b) = keypair(2);
    assert_eq!(
        resolve_participants("bad", &pub_a, &pub_b).unwrap_err(),
        EscrowError::InvalidIdentity(Role::Buyer)
    );
    assert_eq!(
        resolve_participants(&pub_a, "bad", &pub_b).unwrap_err(),
        EscrowError::InvalidIdentity(Role::Seller)
    );
    assert_eq!(
        resolve_participants(&pub_a, &pub_b, "bad").unwrap_err(),
        EscrowError::InvalidIdentity(Role::Arbitrator)
    );
}

#[test]
fn policy_is_deterministic_in_any_input_order() {
    let (_, pub_a) = keypair(1);
    let (_, pub_b) = keypair(2);
    let (_, pub_c) = keypair(3);
    let id_a = resolve(&pub_a, Role::Buyer).unwrap();
    let id_b = resolve(&pub_b, Role::Seller).unwrap();
    let id_c = resolve(&pub_c, Role::Arbitrator).unwrap();
    let p1 = build_policy(&id_a, &id_b, &id_c).unwrap();
    let p2 = build_policy(&id_c, &id_a, &id_b).unwrap();
    let p3 = build_policy(&id_b, &id_c, &id_a).unwrap();
    assert_eq!(p1.script().as_slice(), p2.script().as_slice());
    assert_eq!(p1.script().as_slice(), p3.script().as_slice());
    assert_eq!(p1.address().as_str(), p2.address().as_str());
    assert_eq!(p1.address().as_str(), p3.address().as_str());
}

#[test]
fn policy_script_is_canonical_2_of_3() {
    let (_, pub_a) = keypair(1);
    let (_, pub_b) = keypair(2);
    let (_, pub_c) = keypair(3);
    let id_a = resolve(&pub_a, Role::Buyer).unwrap();
    let id_b = resolve(&pub_b, Role::Seller).unwrap();
    let id_c = resolve(&pub_c, Role::Arbitrator).unwrap();
    let policy = build_policy(&id_a, &id_b, &id_c).unwrap();
    let script = policy.script();
    assert_eq!(script.len(), 2 + 34 * 3 + 2 - 1);
    assert_eq!(script[0], 0x52); // OP_2
    assert_eq!(script[script.len() - 2], 0x53); // OP_3
    assert_eq!(script[script.len() - 1], 0xae); // OP_CHECKMULTISIG
    // The three keys stand sorted by their encoded bytes.
    let mut keys: Vec<Vec<u8>> = vec![
        script[2..35].to_vec(),
        script[36..69].to_vec(),
        script[70..103].to_vec(),
    ];
    let sorted = keys.clone();
    keys.sort();
    assert_eq!(keys, sorted);
}

#[test]
fn policy_address_matches_bitcoin_library_p2wsh() {
    let (_, pub_a) = keypair(4);
    let (_, pub_b) = keypair(5);
    let (_, pub_c) = keypair(6);
    let id_a = resolve(&pub_a, Role::Buyer).unwrap();
    let id_b = resolve(&pub_b, Role::Seller).unwrap();
    let id_c = resolve(&pub_c, Role::Arbitrator).unwrap();
    let policy = build_policy(&id_a, &id_b, &id_c).unwrap();
    let script = bitcoin::ScriptBuf::from(policy.script().clone());
    let expected = bitcoin::Address::p2wsh(&script, bitcoin::Network::Bitcoin).to_string();
    assert_eq!(policy.address().as_str(), expected.as_str());
}

#[test]
fn utxo_reference_parses_display_order_hex() {
    let u = UtxoReference::from_hex(FUNDING_TXID, 3).expect("valid");
    assert_eq!(u.vout(), 3);
    // Internal order is the byte-reversed display order.
    assert_eq!(u.txid_bytes()[0], 0x3b);
    assert_eq!(u.txid_bytes()[31], 0x4a);
    assert!(UtxoReference::from_hex("abcd", 0).is_none());
    assert!(UtxoReference::from_hex(&"zz".repeat(32), 0).is_none());
}

#[test]
fn build_unsigned_rejects_zero_and_accepts_large_amount() {
    let (_, pub_a) = keypair(1);
    let (_, pub_b) = keypair(2);
    let (_, pub_c) = keypair(3);
    assert_eq!(
        create_escrow_tx(&pub_a, &pub_b, &pub_c, &funding(), 0).unwrap_err(),
        EscrowError::InvalidAmount
    );
    // The full currency supply in satoshis is representable and accepted.
    let session = create_escrow_tx(&pub_a, &pub_b, &pub_c, &funding(), 2_100_000_000_000_000)
        .expect("large amount accepted");
    assert_eq!(session.unsigned().amount(), 2_100_000_000_000_000);
}

#[test]
fn sighash_is_32_bytes_and_commits_to_the_amount() {
    let (_, pub_a) = keypair(1);
    let (_, pub_b) = keypair(2);
    let (_, pub_c) = keypair(3);
    let s1 = create_escrow_tx(&pub_a, &pub_b, &pub_c, &funding(), 100_000).unwrap();
    let s2 = create_escrow_tx(&pub_a, &pub_b, &pub_c, &funding(), 100_001).unwrap();
    assert_eq!(s1.unsigned().sighash().len(), 32);
    assert_ne!(s1.unsigned().sighash(), s2.unsigned().sighash());
}

#[test]
fn two_distinct_signers_complete_the_escrow() {
    let (mut session, id_a, id_b, _, sk_a, sk_b, _) = session_with_identities();
    let digest = session.unsigned().sighash().clone();
    let first = session.submit_signature(&id_a, sign_digest(&sk_a, &digest));
    assert_eq!(first.unwrap_err(), EscrowError::InsufficientSignatures);
    let second = session.submit_signature(&id_b, sign_digest(&sk_b, &digest));
    let signed = second.expect("two distinct valid signatures complete the session");
    assert_eq!(signed.amount(), 100_000);
}

#[test]
fn any_two_of_three_suffice() {
    // Seller plus arbitrator settle without the buyer.
    let (mut session, _, id_b, id_c, _, sk_b, sk_c) = session_with_identities();
    let digest = session.unsigned().sighash().clone();
    assert_eq!(
        session.submit_signature(&id_b, sign_digest(&sk_b, &digest)).unwrap_err(),
        EscrowError::InsufficientSignatures
    );
    assert!(session.submit_signature(&id_c, sign_digest(&sk_c, &digest)).is_ok());
}

#[test]
fn resubmission_by_one_signer_never_meets_the_threshold() {
    let (mut session, id_a, _, _, sk_a, _, _) = session_with_identities();
    let digest = session.unsigned().sighash().clone();
    let sig = sign_digest(&sk_a, &digest);
    assert_eq!(
        session.submit_signature(&id_a, sig.clone()).unwrap_err(),
        EscrowError::InsufficientSignatures
    );
    // The same identity again: replaced, not double-counted.
    assert_eq!(
        session.submit_signature(&id_a, sig).unwrap_err(),
        EscrowError::InsufficientSignatures
    );
}

#[test]
fn signature_over_a_different_transaction_is_rejected() {
    let (_, pub_a) = keypair(1);
    let (_, pub_b) = keypair(2);
    let (_, pub_c) = keypair(3);
    let sk_a = SecretKey::from_slice(&[1u8; 32]).unwrap();
    let mut session = create_escrow_tx(&pub_a, &pub_b, &pub_c, &funding(), 100_000).unwrap();
    let other = create_escrow_tx(&pub_a, &pub_b, &pub_c, &funding(), 99_999).unwrap();
    let id_a = resolve(&pub_a, Role::Buyer).unwrap();
    // Valid for the other transaction's signature hash, not for this one.
    let foreign_sig = sign_digest(&sk_a, other.unsigned().sighash());
    assert_eq!(
        session.submit_signature(&id_a, foreign_sig).unwrap_err(),
        EscrowError::SignatureVerificationFailed
    );
    // The genuine signature is still accepted afterwards.
    let good = sign_digest(&sk_a, &session.unsigned().sighash().clone());
    assert_eq!(
        session.submit_signature(&id_a, good).unwrap_err(),
        EscrowError::InsufficientSignatures
    );
}

#[test]
fn signature_from_a_stranger_is_rejected() {
    let (mut session, _, _, _, _, _, _) = session_with_identities();
    let (sk_d, pub_d) = keypair(9);
    let id_d = resolve(&pub_d, Role::Buyer).unwrap();
    let digest = session.unsigned().sighash().clone();
    assert_eq!(
        session.submit_signature(&id_d, sign_digest(&sk_d, &digest)).unwrap_err(),
        EscrowError::SignatureVerificationFailed
    );
}

#[test]
fn garbage_signature_bytes_are_rejected() {
    let (mut session, id_a, _, _, _, _, _) = session_with_identities();
    assert_eq!(
        session.submit_signature(&id_a, vec![0u8; 70]).unwrap_err(),
        EscrowError::SignatureVerificationFailed
    );
}

#[test]
fn broadcast_classification_follows_the_node() {
    let (mut session, id_a, id_b, _, sk_a, sk_b, _) = session_with_identities();
    let digest = session.unsigned().sighash().clone();
    let _ = session.submit_signature(&id_a, sign_digest(&sk_a, &digest));
    let signed = session.submit_signature(&id_b, sign_digest(&sk_b, &digest)).unwrap();
    let txid = txid_hex(&signed);

    // The node accepts and returns the identifier.
    let r = classify_node_response(NodeResponse::Accepted { txid: txid.clone() });
    assert!(matches!(&r, BroadcastResult::Accepted { txid: t } if *t == txid));
    assert!(r.is_success(&txid));

    // Re-broadcasting the identical bytes: duplicate, treated as success.
    let r = classify_node_response(NodeResponse::NodeError {
        code: -27,
        message: "Transaction already in block chain".to_string(),
    });
    assert!(matches!(r, BroadcastResult::AlreadyBroadcast));
    assert!(r.is_success(&txid));

    // Mempool-policy refusal.
    let r = classify_node_response(NodeResponse::NodeError {
        code: -26,
        message: "min relay fee not met".to_string(),
    });
    assert!(matches!(&r, BroadcastResult::RejectedByPolicy { reason } if reason == "min relay fee not met"));
    assert!(!r.is_success(&txid));

    // Transport failure: retryable.
    let r = classify_node_response(NodeResponse::Unreachable);
    assert!(matches!(r, BroadcastResult::NodeUnreachable));

    // Anything else is surfaced verbatim.
    let r = classify_node_response(NodeResponse::NodeError {
        code: -5,
        message: "odd".to_string(),
    });
    assert!(matches!(&r, BroadcastResult::UnknownRejection { reason } if reason == "odd"));

    // A successful acceptance under a different identifier does not match.
    let r = classify_node_response(NodeResponse::Accepted { txid: "feed".to_string() });
    assert!(!r.is_success(&txid));
}

#[test]
fn error_descriptions_are_stable() {
    assert_eq!(
        EscrowError::InvalidIdentity(Role::Buyer).describe(),
        "invalid buyer identity"
    );
    assert_eq!(EscrowError::InvalidAmount.describe(), "amount must be a positive satoshi value");
}
