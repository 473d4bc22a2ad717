use prism_da::digest::Digest;
use prism_da::epoch::FinalizedEpoch;
use prism_da::epoch::Proof;
use prism_da::keys::KeyAlgorithm;
use prism_da::keys::SigningKey;
use prism_da::memory::InMemoryDaLayer;
use prism_da::transaction::Transaction;

fn epoch_at(height: u64) -> FinalizedEpoch {
    FinalizedEpoch {
        height,
        prev_commitment: Digest::new([height as u8; 32]),
        current_commitment: Digest::new([height as u8 + 1; 32]),
        proof: Proof { bytes: vec![height as u8] },
        signature: None,
    }
}

#[test]
fn submissions_get_distinct_heights() {
    let mut da = InMemoryDaLayer::new(16);
    let h1 = da.submit_finalized_epoch(epoch_at(1));
    let h2 = da.submit_finalized_epoch(epoch_at(2));
    assert_ne!(h1, h2);
    assert_eq!(h1, 1);
    assert_eq!(h2, 2);
    assert_eq!(da.get_latest_height(), 2);
}

#[test]
fn absent_height_is_none_not_error() {
    let mut da = InMemoryDaLayer::new(16);
    assert!(da.get_finalized_epoch(1).is_none());
    assert!(da.get_finalized_epoch(500).is_none());
    let h = da.submit_transactions(vec![Transaction::new(vec![1, 2])]);
    // A height holding a transaction batch has no epoch either.
    assert!(da.get_finalized_epoch(h).is_none());
}

#[test]
fn submitted_epoch_is_retrievable_and_still_verifies() {
    let key = SigningKey::from_algorithm_and_bytes(KeyAlgorithm::Ed25519, vec![9; 32]).unwrap();
    let mut epoch = epoch_at(1);
    epoch.insert_signature(&key).unwrap();
    let mut da = InMemoryDaLayer::new(16);
    let h = da.submit_finalized_epoch(epoch.duplicate());
    let fetched = da.get_finalized_epoch(h).unwrap();
    assert_eq!(fetched.signature, epoch.signature);
    assert_eq!(fetched.verify_signature(key.verifying_key()), Ok(()));
}

#[test]
fn initialize_sync_target_tracks_ledger_end() {
    let mut da = InMemoryDaLayer::new(16);
    assert_eq!(da.initialize_sync_target(), 0);
    da.submit_finalized_epoch(epoch_at(1));
    da.submit_finalized_epoch(epoch_at(2));
    assert_eq!(da.initialize_sync_target(), 2);
}

#[test]
fn late_subscriber_sees_only_later_heights() {
    let mut da = InMemoryDaLayer::new(16);
    da.submit_finalized_epoch(epoch_at(1));
    da.submit_finalized_epoch(epoch_at(2));
    da.submit_finalized_epoch(epoch_at(3));
    let sub = da.subscribe_to_heights();
    assert_eq!(da.next_height(sub), None);
    da.submit_finalized_epoch(epoch_at(4));
    da.submit_finalized_epoch(epoch_at(5));
    assert_eq!(da.next_height(sub), Some(4));
    assert_eq!(da.next_height(sub), Some(5));
    assert_eq!(da.next_height(sub), None);
}

#[test]
fn slow_subscriber_skips_to_oldest_retained() {
    let mut da = InMemoryDaLayer::new(2);
    let sub = da.subscribe_to_heights();
    for i in 1..=5 {
        da.submit_finalized_epoch(epoch_at(i));
    }
    // Five notifications are pending but only the last two are retained.
    assert_eq!(da.next_height(sub), Some(4));
    assert_eq!(da.next_height(sub), Some(5));
    assert_eq!(da.next_height(sub), None);
}

#[test]
fn independent_subscribers_each_see_their_own_stream() {
    let mut da = InMemoryDaLayer::new(16);
    let early = da.subscribe_to_heights();
    da.submit_finalized_epoch(epoch_at(1));
    let late = da.subscribe_to_heights();
    da.submit_finalized_epoch(epoch_at(2));
    assert_eq!(da.next_height(early), Some(1));
    assert_eq!(da.next_height(early), Some(2));
    assert_eq!(da.next_height(late), Some(2));
    assert_eq!(da.next_height(late), None);
}

#[test]
fn transactions_roundtrip() {
    let mut da = InMemoryDaLayer::new(16);
    let txs = vec![Transaction::new(vec![1, 2, 3]), Transaction::new(vec![4])];
    let h = da.submit_transactions(txs);
    let got = da.get_transactions(h);
    assert_eq!(got.len(), 2);
    assert_eq!(got[0].bytes, vec![1, 2, 3]);
    assert_eq!(got[1].bytes, vec![4]);
    assert!(da.get_transactions(h + 1).is_empty());
    // A height holding an epoch has no transactions.
    let eh = da.submit_finalized_epoch(epoch_at(9));
    assert!(da.get_transactions(eh).is_empty());
}
