//! Content addressing, timestamps, and queue kinds.

use chain_core::block::{
    Block, BlockByHeight, BlockHash, Deploy, DeployHash, FinalizedBlock, ProtoBlock,
    ProtoBlockHash,
};
use chain_core::block_executor::RootNotFound;
use chain_core::era_supervisor::EraId;
use chain_core::hashing::{hash_bytes, Digest};
use chain_core::keys::PublicKey;
use chain_core::queue_kind::QueueKind;
use chain_core::timestamp::{TimeDiff, Timestamp};

fn digest(byte: u8) -> Digest {
    Digest([byte; 32])
}

/// The hash function is BLAKE2b with a 32-byte output: the digest of the
/// empty byte string is its published value.
#[test]
fn empty_input_hashes_to_the_published_blake2b_digest() {
    let expected: [u8; 32] = [
        0x0e, 0x57, 0x51, 0xc0, 0x26, 0xe5, 0x43, 0xb2, 0xe8, 0xab, 0x2e, 0xb0, 0x60, 0x99, 0xda,
        0xa1, 0xd1, 0xe5, 0xdf, 0x47, 0x77, 0x8f, 0x77, 0x87, 0xfa, 0xab, 0x45, 0xcd, 0xf1, 0x2f,
        0xe3, 0xa8,
    ];
    let hashed = hash_bytes(&[]);
    assert!(hashed == Digest(expected));
}

/// Content addressing is a function of the contents: equal contents give the
/// same hash, different contents a different one.
#[test]
fn proto_block_hash_follows_its_contents() {
    let deploys = vec![DeployHash(digest(1)), DeployHash(digest(2))];
    let first = ProtoBlock::new(deploys.clone(), false);
    let again = ProtoBlock::new(deploys.clone(), false);
    assert!(first.hash() == again.hash());

    let flipped_bit = ProtoBlock::new(deploys, true);
    assert!(first.hash() != flipped_bit.hash());

    let fewer = ProtoBlock::new(vec![DeployHash(digest(1))], false);
    assert!(first.hash() != fewer.hash());
}

/// Only the hashes of the two empty proto blocks count as empty.
#[test]
fn only_empty_proto_block_hashes_are_empty() {
    assert!(ProtoBlock::empty_random_bit_false().is_empty());
    assert!(ProtoBlock::empty_random_bit_true().is_empty());
    assert!(ProtoBlock::empty_random_bit_false() != ProtoBlock::empty_random_bit_true());
    let nonempty = ProtoBlock::new(vec![DeployHash(digest(1))], false);
    assert!(!nonempty.hash().is_empty());
    assert!(!ProtoBlockHash::new(digest(3)).is_empty());
}

/// A block's identity is its header's hash; appending signatures afterwards
/// does not change it.
#[test]
fn block_identity_ignores_appended_proofs() {
    let finalized = FinalizedBlock::new(
        ProtoBlock::new(vec![DeployHash(digest(1))], true),
        Timestamp::from_millis(42),
        None,
        EraId(0),
        0,
        PublicKey([5u8; 32]),
    );
    let mut block = Block::new(BlockHash::new(Digest::zero()), digest(9), finalized);
    let identity = *block.hash();
    assert!(block.header().hash() == identity);
    block.append_proof(chain_core::keys::Signature([1u8; 64]));
    assert!(*block.hash() == identity);
    assert!(block.header().hash() == identity);
}

/// Two blocks built from the same parts carry the same hash; changing the
/// post-state changes it.
#[test]
fn block_hash_follows_header_contents() {
    let finalized = |ts: u64| {
        FinalizedBlock::new(
            ProtoBlock::new(vec![], false),
            Timestamp::from_millis(ts),
            None,
            EraId(2),
            25,
            PublicKey([5u8; 32]),
        )
    };
    let first = Block::new(BlockHash::new(digest(1)), digest(9), finalized(42));
    let again = Block::new(BlockHash::new(digest(1)), digest(9), finalized(42));
    assert!(first.hash() == again.hash());
    let other_root = Block::new(BlockHash::new(digest(1)), digest(10), finalized(42));
    assert!(first.hash() != other_root.hash());
    let other_time = Block::new(BlockHash::new(digest(1)), digest(9), finalized(43));
    assert!(first.hash() != other_time.hash());
}

/// A finalized block is the genesis child exactly when both its era and its
/// height are zero.
#[test]
fn genesis_child_means_era_zero_and_height_zero() {
    let build = |era: u64, height: u64| {
        FinalizedBlock::new(
            ProtoBlock::new(vec![], false),
            Timestamp::from_millis(1),
            None,
            EraId(era),
            height,
            PublicKey([5u8; 32]),
        )
    };
    assert!(build(0, 0).is_genesis_child());
    assert!(!build(0, 1).is_genesis_child());
    assert!(!build(1, 0).is_genesis_child());
}

/// A block fetched by height reports the height it speaks of, present or
/// absent.
#[test]
fn block_by_height_reports_its_height() {
    assert_eq!(BlockByHeight::Absent(77).height(), 77);
    let finalized = FinalizedBlock::new(
        ProtoBlock::new(vec![], false),
        Timestamp::from_millis(1),
        None,
        EraId(1),
        12,
        PublicKey([5u8; 32]),
    );
    let block = Block::new(BlockHash::new(digest(1)), digest(9), finalized);
    assert_eq!(BlockByHeight::new(block).height(), 12);
}

/// A deploy answers to the identifier it was stored under.
#[test]
fn deploy_reports_its_identifier() {
    let hash = DeployHash(digest(4));
    assert!(Deploy::new(hash).id() == &hash);
}

/// The missing-root fault carries the root's bytes.
#[test]
fn root_not_found_carries_the_root() {
    let fault = RootNotFound::new(digest(6));
    assert_eq!(fault.to_vec(), vec![6u8; 32]);
}

#[test]
fn timestamp_arithmetic() {
    let early = Timestamp::from_millis(1_000);
    let late = Timestamp::from_millis(1_750);
    assert_eq!(Timestamp::zero().millis(), 0);
    assert_eq!(late.saturating_sub(early).millis(), 750);
    assert_eq!(early.saturating_sub(late).millis(), 0);
    assert_eq!(late.diff_since(early).millis(), 750);
    assert_eq!(early.add_diff(TimeDiff::from_millis(750)).millis(), 1_750);
    assert_eq!(early.later_of(late).millis(), 1_750);
    assert_eq!(late.later_of(early).millis(), 1_750);
}

#[test]
fn timestamp_trailing_zeros() {
    assert_eq!(Timestamp::from_millis(0).trailing_zeros(), 64);
    assert_eq!(Timestamp::from_millis(1).trailing_zeros(), 0);
    assert_eq!(Timestamp::from_millis(8).trailing_zeros(), 3);
    assert_eq!(Timestamp::from_millis(12).trailing_zeros(), 2);
}

#[test]
fn queue_kinds_have_positive_weights() {
    assert_eq!(QueueKind::default(), QueueKind::Regular);
    let weights = QueueKind::weights();
    assert_eq!(weights.len(), 4);
    for (kind, weight) in &weights {
        assert!(*weight >= 1);
        assert_eq!(kind.weight(), *weight);
    }
    assert_eq!(QueueKind::Api.weight(), 16);
    assert_eq!(QueueKind::NetworkIncoming.metrics_name(), "network_incoming");
    assert_eq!(QueueKind::Regular.metrics_name(), "regular");
}
