use ed25519_dalek::{Signer, SigningKey};
use stf_blueprint::codec::{
    decode_batch, decode_transaction, encode_transaction, sha256, signed_bytes, verify_signature,
    Transaction,
};
use stf_blueprint::fee_history::FeeHistoryCacheConfig;
use stf_blueprint::state::{Event, StateCheckpoint};
use stf_blueprint::stf::verify_txs_stateless;

fn base() -> StateCheckpoint {
    let mut ws = StateCheckpoint::new().to_revertable();
    ws.set(1, 100);
    ws.set(2, 200);
    ws.checkpoint()
}

#[test]
fn revert_restores_the_checkpoint() {
    let mut ws = base().to_revertable();
    ws.set(1, 5);
    ws.set(3, 7);
    ws.emit_event(Event { key: vec![1], value: vec![2] });
    assert_eq!(ws.get(1), Some(5));
    let reverted = ws.revert();
    let untouched = base().to_revertable().checkpoint();
    for k in 0..5 {
        assert_eq!(reverted.get(k), untouched.get(k));
    }
    assert_eq!(reverted.get(3), None);
    // Events emitted before the revert are gone too.
    let mut again = reverted.to_revertable();
    assert!(again.take_events().is_empty());
}

#[test]
fn two_stagings_then_revert_leave_nothing() {
    let mut ws = base().to_revertable();
    ws.set(1, 11);
    ws.set(4, 44);
    ws.set(1, 12);
    let c = ws.revert();
    assert_eq!((c.get(1), c.get(2), c.get(4)), (Some(100), Some(200), None));
}

#[test]
fn commit_then_commit_equals_one_commit() {
    let mut a = base().to_revertable();
    a.set(1, 11);
    a.set(5, 55);
    let mut b = a.checkpoint().to_revertable();
    b.set(1, 12);
    let two = b.checkpoint();
    let mut once = base().to_revertable();
    once.set(1, 11);
    once.set(5, 55);
    once.set(1, 12);
    let one = once.checkpoint();
    for k in 0..7 {
        assert_eq!(two.get(k), one.get(k));
    }
    assert_eq!(one.get(1), Some(12));
}

#[test]
fn last_write_wins_and_events_drain_in_order() {
    let mut ws = StateCheckpoint::new().to_revertable();
    assert_eq!(ws.get(9), None);
    ws.set(9, 1);
    ws.set(9, 2);
    assert_eq!(ws.get(9), Some(2));
    ws.emit_event(Event { key: vec![1], value: vec![] });
    ws.emit_event(Event { key: vec![2], value: vec![] });
    let events = ws.take_events();
    assert_eq!(events.iter().map(|e| e.key[0]).collect::<Vec<_>>(), vec![1, 2]);
    assert!(ws.take_events().is_empty());
    assert_eq!(ws.get(9), Some(2));
}

fn sample_tx() -> Transaction {
    let signing = SigningKey::from_bytes(&[3u8; 32]);
    let runtime_msg = vec![1, 2, 3];
    let nonce = 0x0102_0304_0506_0708u64;
    let mut msg = runtime_msg.clone();
    msg.extend_from_slice(&nonce.to_le_bytes());
    Transaction {
        signature: signing.sign(&msg).to_bytes(),
        pub_key: signing.verifying_key().to_bytes(),
        runtime_msg,
        nonce,
    }
}

#[test]
fn transaction_encoding_layout() {
    let tx = sample_tx();
    let bytes = encode_transaction(&tx).unwrap();
    assert_eq!(bytes.len(), 64 + 32 + 4 + 3 + 8);
    assert_eq!(&bytes[0..64], &tx.signature[..]);
    assert_eq!(&bytes[64..96], &tx.pub_key[..]);
    assert_eq!(&bytes[96..103], &[3, 0, 0, 0, 1, 2, 3]);
    assert_eq!(&bytes[103..], &[8, 7, 6, 5, 4, 3, 2, 1]);
    assert_eq!(decode_transaction(&bytes), Some(tx));
    assert_eq!(decode_transaction(&bytes[..bytes.len() - 1]), None);
    let mut longer = bytes.clone();
    longer.push(0);
    assert_eq!(decode_transaction(&longer), None);
}

#[test]
fn signed_bytes_are_message_then_nonce() {
    let tx = sample_tx();
    assert_eq!(signed_bytes(&tx), vec![1, 2, 3, 8, 7, 6, 5, 4, 3, 2, 1]);
}

#[test]
fn signature_check_accepts_only_the_signed_transaction() {
    let tx = sample_tx();
    assert!(verify_signature(&tx));
    let mut other = tx.clone();
    other.nonce += 1;
    assert!(!verify_signature(&other));
    let mut bad_key = tx.clone();
    bad_key.pub_key = [0xff; 32];
    assert!(!verify_signature(&bad_key));
}

#[test]
fn batch_decoding() {
    let data = vec![2, 0, 0, 0, 1, 0, 0, 0, 9, 0, 0, 0, 0];
    assert_eq!(decode_batch(&data), Some(vec![vec![9], vec![]]));
    assert_eq!(decode_batch(&data[..12]), None);
    assert_eq!(decode_batch(&[0, 0, 0, 0]), Some(vec![]));
    assert_eq!(decode_batch(&[]), None);
}

#[test]
fn sha256_of_abc() {
    let h = sha256(b"abc");
    assert_eq!(h[..4], [0xba, 0x78, 0x16, 0xbf]);
    assert_eq!(h[28..], [0xf2, 0x00, 0x15, 0xad]);
}

#[test]
fn stateless_verification_keeps_order_and_hashes() {
    let tx = sample_tx();
    let raw = encode_transaction(&tx).unwrap();
    let v = verify_txs_stateless(&vec![raw.clone(), raw.clone()]).unwrap();
    assert_eq!(v.len(), 2);
    assert_eq!(v[0].tx, tx);
    assert_eq!(v[1].raw_tx_hash, sha256(&raw));
    let mut tampered = raw.clone();
    tampered[100] ^= 1;
    assert!(verify_txs_stateless(&vec![raw, tampered]).is_none());
}

#[test]
fn fee_history_config_default() {
    let c = FeeHistoryCacheConfig::default();
    assert_eq!(c.max_blocks, 1124);
    assert_eq!(c.resolution, 4);
}
