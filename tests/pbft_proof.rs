use pbft::aggregate::{AggregateProof, Signer};
use pbft::message::{
    signing_bytes, Blake2bHash, PbftCommitMessage, PbftPrepareMessage, SignedMessage,
    PREFIX_PBFT_COMMIT, PREFIX_PBFT_PREPARE,
};
use pbft::pbft::PbftProof;

fn hash(b: u8) -> Blake2bHash {
    Blake2bHash::from_bytes([b; 32])
}

fn prepare(h: Blake2bHash, idx: u16) -> SignedMessage<PbftPrepareMessage> {
    SignedMessage { message: PbftPrepareMessage { block_hash: h }, signer_idx: idx, signature: vec![idx as u8] }
}

fn commit(h: Blake2bHash, idx: u16) -> SignedMessage<PbftCommitMessage> {
    SignedMessage { message: PbftCommitMessage { block_hash: h }, signer_idx: idx, signature: vec![idx as u8] }
}

#[test]
fn three_of_four_finalize() {
    let h = hash(7);
    let mut proof = PbftProof::new();
    for idx in 1..=3u16 {
        assert!(proof.add_prepare_signature(1, &prepare(h, idx), true, vec![idx as u8]));
    }
    for idx in 1..=3u16 {
        assert!(proof.add_commit_signature(1, &commit(h, idx), true, vec![idx as u8]));
    }
    assert!(proof.verify_prepare(2, true));
    assert!(proof.verify(2, true, true));
}

#[test]
fn two_commits_of_four_do_not_finalize() {
    let h = hash(7);
    let mut proof = PbftProof::new();
    for idx in 1..=3u16 {
        assert!(proof.add_prepare_signature(1, &prepare(h, idx), true, vec![idx as u8]));
    }
    for idx in 1..=2u16 {
        assert!(proof.add_commit_signature(1, &commit(h, idx), true, vec![idx as u8]));
    }
    assert!(proof.verify_prepare(2, true));
    assert!(!proof.verify(2, true, true));
}

#[test]
fn invalid_aggregate_does_not_finalize() {
    let h = hash(1);
    let mut proof = PbftProof::new();
    for idx in 0..4u16 {
        proof.add_prepare_signature(1, &prepare(h, idx), true, vec![]);
        proof.add_commit_signature(1, &commit(h, idx), true, vec![]);
    }
    assert!(proof.verify(2, true, true));
    assert!(!proof.verify(2, false, true));
    assert!(!proof.verify(2, true, false));
    assert!(!proof.verify_prepare(2, false));
}

#[test]
fn duplicate_signer_is_refused() {
    let h = hash(3);
    let mut agg: AggregateProof<PbftPrepareMessage> = AggregateProof::new();
    assert!(agg.add_signature(5, &prepare(h, 9), true, vec![1, 2, 3]));
    let mut other = prepare(h, 9);
    other.signature = vec![42];
    assert!(!agg.add_signature(7, &other, true, vec![4, 5, 6]));
    assert!(!agg.add_signature(5, &prepare(h, 9), true, vec![1, 2, 3]));
    assert_eq!(agg.signers, vec![Signer { idx: 9, weight: 5 }]);
    assert_eq!(agg.signature, Some(vec![1, 2, 3]));
    assert_eq!(agg.signer_weight(), 5);
}

#[test]
fn invalid_signature_is_refused() {
    let h = hash(3);
    let mut agg: AggregateProof<PbftPrepareMessage> = AggregateProof::new();
    assert!(!agg.add_signature(5, &prepare(h, 1), false, vec![1]));
    assert!(agg.signers.is_empty());
    assert_eq!(agg.signature, None);
    assert!(agg.add_signature(5, &prepare(h, 1), true, vec![1]));
    assert_eq!(agg.signer_weight(), 5);
}

#[test]
fn weight_is_summed_and_strictly_compared() {
    let h = hash(4);
    let mut agg: AggregateProof<PbftCommitMessage> = AggregateProof::new();
    agg.add_signature(3, &commit(h, 0), true, vec![]);
    agg.add_signature(4, &commit(h, 1), true, vec![]);
    assert_eq!(agg.signer_weight(), 7);
    assert!(agg.verify(6, true));
    assert!(!agg.verify(7, true));
    assert!(agg.verify(0, true));
}

#[test]
fn large_weights_do_not_overflow() {
    let h = hash(4);
    let mut agg: AggregateProof<PbftCommitMessage> = AggregateProof::new();
    for idx in 0..4u16 {
        agg.add_signature(u16::MAX, &commit(h, idx), true, vec![]);
    }
    assert_eq!(agg.signer_weight(), 4 * 65535);
    assert!(agg.verify(u16::MAX, true));
}

#[test]
fn lower_threshold_still_verifies() {
    let h = hash(2);
    let mut agg: AggregateProof<PbftPrepareMessage> = AggregateProof::new();
    for idx in 0..5u16 {
        agg.add_signature(1, &prepare(h, idx), true, vec![]);
    }
    for t in 0..5u16 {
        assert!(agg.verify(t, true));
    }
    assert!(!agg.verify(5, true));
}

#[test]
fn disjoint_coalitions_never_finalize() {
    let x = hash(10);
    let y = hash(11);
    // Coalition A = {0, 1, 2}, coalition B = {3, 4, 5}; threshold 2.
    let mut mixed = PbftProof::new();
    for idx in 0..3u16 {
        mixed.add_prepare_signature(1, &prepare(x, idx), true, vec![]);
    }
    for idx in 3..6u16 {
        mixed.add_commit_signature(1, &commit(y, idx), true, vec![]);
    }
    assert!(mixed.verify_prepare(2, true));
    assert!(mixed.commit.verify(2, true));
    assert!(!mixed.verify(2, true, true));
    assert!(!mixed.verify(0, true, true));
}

#[test]
fn clear_then_replay_matches_fresh() {
    let h = hash(5);
    let mut used = PbftProof::new();
    used.add_prepare_signature(2, &prepare(h, 8), true, vec![9]);
    used.add_commit_signature(2, &commit(h, 8), true, vec![9]);
    used.clear();
    assert!(used.prepare.signers.is_empty());
    assert_eq!(used.commit.signature, None);
    let mut fresh = PbftProof::new();
    for idx in [1u16, 2, 1, 3] {
        let a = used.add_prepare_signature(1, &prepare(h, idx), idx != 3, vec![idx as u8, 1]);
        let b = fresh.add_prepare_signature(1, &prepare(h, idx), idx != 3, vec![idx as u8, 1]);
        assert_eq!(a, b);
    }
    assert_eq!(used.prepare.signers, fresh.prepare.signers);
    assert_eq!(used.prepare.signature, fresh.prepare.signature);
    assert_eq!(used.prepare.signature, Some(vec![2, 1]));
}

#[test]
fn signing_bytes_are_prefixed() {
    let h = hash(0xab);
    let p = signing_bytes(&PbftPrepareMessage { block_hash: h });
    let c = signing_bytes(&PbftCommitMessage { block_hash: h });
    assert_eq!(p.len(), 33);
    assert_eq!(p[0], PREFIX_PBFT_PREPARE);
    assert_eq!(c[0], PREFIX_PBFT_COMMIT);
    assert_eq!(&p[1..], &[0xab; 32][..]);
    assert_ne!(p, c);
    assert_eq!(PbftProof::prepare_signing_bytes(h), p);
    assert_eq!(PbftProof::commit_signing_bytes(h), c);
}

#[test]
fn distinct_hashes_sign_distinct_bytes() {
    let mut a = [0u8; 32];
    let mut b = [0u8; 32];
    a[31] = 1;
    b[31] = 2;
    let pa = PbftProof::prepare_signing_bytes(Blake2bHash::from_bytes(a));
    let pb = PbftProof::prepare_signing_bytes(Blake2bHash::from_bytes(b));
    assert_eq!(pa.len(), pb.len());
    assert_ne!(pa, pb);
}

#[test]
fn pbft_lower_threshold_still_verifies() {
    let h = hash(9);
    let mut proof = PbftProof::new();
    for idx in 0..4u16 {
        proof.add_prepare_signature(2, &prepare(h, idx), true, vec![]);
        proof.add_commit_signature(2, &commit(h, idx), true, vec![]);
    }
    assert!(proof.verify(7, true, true));
    for t in 0..7u16 {
        assert!(proof.verify(t, true, true));
    }
    assert!(!proof.verify(8, true, true));
}

#[test]
fn partial_overlap_counts_only_shared_weight() {
    let h = hash(6);
    let mut proof = PbftProof::new();
    for idx in [0u16, 1, 2, 3] {
        proof.add_prepare_signature(1, &prepare(h, idx), true, vec![]);
    }
    for idx in [2u16, 3, 4, 5] {
        proof.add_commit_signature(1, &commit(h, idx), true, vec![]);
    }
    // Each phase has weight 4; only validators 2 and 3 signed both.
    assert!(proof.verify_prepare(3, true));
    assert!(proof.commit.verify(3, true));
    assert!(proof.verify(1, true, true));
    assert!(!proof.verify(2, true, true));
}

#[test]
fn phases_are_kept_apart() {
    let h = hash(8);
    let mut proof = PbftProof::new();
    assert!(proof.add_prepare_signature(1, &prepare(h, 4), true, vec![1]));
    assert!(proof.commit.signers.is_empty());
    assert!(proof.add_commit_signature(1, &commit(h, 4), true, vec![2]));
    assert_eq!(proof.prepare.signature, Some(vec![1]));
    assert_eq!(proof.commit.signature, Some(vec![2]));
}
