//! Era-scoped consensus supervision: era creation and rotation, bounded
//! retention of old eras, stake-weight rescaling, per-era instance
//! identifiers, and the routing of consensus events to the era they belong
//! to.

use vstd::arithmetic::div_mod::{
    lemma_div_is_ordered, lemma_fundamental_div_mod, lemma_fundamental_div_mod_converse,
    lemma_mod_bound, lemma_multiply_divide_le,
};
use std::collections::HashMap;

use vstd::prelude::*;

use crate::block::{
    finalized_block_like, header_bytes, BlockHash, BlockHeader, EraEnd, FinalizedBlock, ProtoBlock,
};
use crate::encoding::{push_digest, push_u64_le};
use crate::hashing::{blake2b256_of, hash_bytes, Digest};
use crate::keys::{NodeId, PublicKey, SecretKey};
use crate::random::random_u64;
use crate::timestamp::{TimeDiff, Timestamp};

verus! {

/// The number of recent eras to retain. Eras older than this are dropped
/// from memory.
pub const RETAIN_ERAS: u64 = 4;

/// Identifier of a bounded voting epoch. Monotonically increasing; totally
/// ordered.
#[derive(Clone, Copy, Debug, PartialEq, Eq, Structural, Hash)]
pub struct EraId(pub u64);

impl EraId {
    /// The identifier of the era that follows this one.
    pub fn successor(self) -> (r: EraId)
        requires
            self.0 < u64::MAX,
        ensures
            r.0 == self.0 + 1,
    {
        EraId(self.0 + 1)
    }

    /// Tags a consensus payload with this era, for the network layer.
    pub fn message(self, payload: Vec<u8>) -> (r: ConsensusMessage)
        ensures
            r.era_id == self,
            r.payload == payload,
    {
        ConsensusMessage { era_id: self, payload }
    }
}

/// An era-tagged consensus payload, exchanged between peers. The payload is
/// opaque: only the consensus protocol instance of that era reads it.
#[derive(Clone, Debug)]
pub struct ConsensusMessage {
    pub era_id: EraId,
    pub payload: Vec<u8>,
}

/// The sum of a stake table, as an unbounded integer.
pub open spec fn total_stake(s: Seq<(PublicKey, u128)>) -> int
    decreases s.len(),
{
    if s.len() == 0 {
        0
    } else {
        total_stake(s.drop_last()) + s.last().1
    }
}

/// The sum of a rescaled weight table, as an unbounded integer.
pub open spec fn total_weight(s: Seq<(PublicKey, u64)>) -> int
    decreases s.len(),
{
    if s.len() == 0 {
        0
    } else {
        total_weight(s.drop_last()) + s.last().1
    }
}

/// The factor by which stakes are divided to fit the protocol's `u64` weight
/// domain: the total stake divided by `u64::MAX`, rounded up. Rounding the
/// divisor up is what guarantees that the rescaled total cannot overflow.
pub open spec fn stake_scale(total: int) -> int {
    (total + (u64::MAX - 1)) / (u64::MAX as int)
}

/// The integer weight that a stake is rescaled to, given the total stake.
pub open spec fn rescaled_weight(stake: u128, total: int) -> int {
    stake as int / stake_scale(total)
}

proof fn lemma_total_stake_take_succ(s: Seq<(PublicKey, u128)>, i: int)
    requires
        0 <= i < s.len(),
    ensures
        total_stake(s.take(i + 1)) == total_stake(s.take(i)) + s[i].1,
{
    assert(s.take(i + 1).drop_last() =~= s.take(i));
}

proof fn lemma_total_stake_nonneg(s: Seq<(PublicKey, u128)>)
    ensures
        total_stake(s) >= 0,
    decreases s.len(),
{
    if s.len() > 0 {
        lemma_total_stake_nonneg(s.drop_last());
    }
}

proof fn lemma_total_stake_prefix_le(s: Seq<(PublicKey, u128)>, i: int)
    requires
        0 <= i <= s.len(),
    ensures
        total_stake(s.take(i)) <= total_stake(s),
    decreases s.len() - i,
{
    if i == s.len() {
        assert(s.take(i) =~= s);
    } else {
        lemma_total_stake_take_succ(s, i);
        lemma_total_stake_prefix_le(s, i + 1);
    }
}

proof fn lemma_total_weight_take_succ(s: Seq<(PublicKey, u64)>, i: int)
    requires
        0 <= i < s.len(),
    ensures
        total_weight(s.take(i + 1)) == total_weight(s.take(i)) + s[i].1,
{
    assert(s.take(i + 1).drop_last() =~= s.take(i));
}

/// Floor division distributes over addition with a deficit, never a surplus.
proof fn lemma_div_subadditive(a: int, b: int, d: int)
    requires
        0 <= a,
        0 <= b,
        0 < d,
    ensures
        a / d + b / d <= (a + b) / d,
{
    lemma_fundamental_div_mod(a, d);
    lemma_fundamental_div_mod(b, d);
    lemma_fundamental_div_mod(a + b, d);
    lemma_mod_bound(a, d);
    lemma_mod_bound(b, d);
    lemma_mod_bound(a + b, d);
    assert(a / d + b / d <= (a + b) / d) by (nonlinear_arith)
        requires
            a == d * (a / d) + a % d,
            b == d * (b / d) + b % d,
            a + b == d * ((a + b) / d) + (a + b) % d,
            0 <= a % d < d,
            0 <= b % d < d,
            0 <= (a + b) % d < d,
            0 < d,
    {
    }
}

/// The scale divisor is positive, and the total stake never exceeds
/// `u64::MAX` times the divisor.
proof fn lemma_stake_scale_bounds(total: int)
    requires
        0 < total,
    ensures
        0 < stake_scale(total),
        total <= stake_scale(total) * (u64::MAX as int),
{
    let m = u64::MAX as int;
    lemma_fundamental_div_mod(total + (m - 1), m);
    lemma_mod_bound(total + (m - 1), m);
    let scale = stake_scale(total);
    let rem = (total + (m - 1)) % m;
    assert(m * scale == total + (m - 1) - rem);
    assert(m * scale >= total);
    assert(scale > 0) by (nonlinear_arith)
        requires
            m * scale >= total,
            total > 0,
            m > 0,
    {
    }
    vstd::arithmetic::mul::lemma_mul_is_commutative(scale, m);
}

/// Rescales each validator's stake into the protocol's `u64` weight domain,
/// dividing by the total stake over `u64::MAX`, rounded up. Returns the
/// rescaled table and its total.
///
/// The rescaled weights' sum never exceeds `u64::MAX`, and each rescaled
/// weight is monotonically non-decreasing in its input stake.
pub fn rescale_stakes(stakes: &Vec<(PublicKey, u128)>) -> (r: (Vec<(PublicKey, u64)>, u64))
    requires
        0 < total_stake(stakes@) <= u128::MAX,
    ensures
        r.0@.len() == stakes@.len(),
        forall|i: int|
            0 <= i < stakes@.len() ==> (#[trigger] r.0@[i]).0 == stakes@[i].0 && r.0@[i].1
                == rescaled_weight(stakes@[i].1, total_stake(stakes@)),
        r.1 == total_weight(r.0@),
        total_weight(r.0@) <= u64::MAX,
        forall|i: int, j: int|
            #![trigger r.0@[i].1, r.0@[j].1]
            0 <= i < stakes@.len() && 0 <= j < stakes@.len() && stakes@[i].1 <= stakes@[j].1
                ==> r.0@[i].1 <= r.0@[j].1,
{
    let ghost total = total_stake(stakes@);
    let m: u128 = u64::MAX as u128;

    // The total stake, by one pass over the table.
    let mut sum: u128 = 0;
    let mut i: usize = 0;
    while i < stakes.len()
        invariant
            i <= stakes@.len(),
            sum == total_stake(stakes@.take(i as int)),
            total_stake(stakes@) <= u128::MAX,
        decreases stakes@.len() - i,
    {
        proof {
            lemma_total_stake_take_succ(stakes@, i as int);
            lemma_total_stake_prefix_le(stakes@, i + 1);
        }
        sum = sum + stakes[i].1;
        i += 1;
    }
    proof {
        assert(stakes@.take(stakes@.len() as int) =~= stakes@);
    }

    // The scale divisor: the total over u64::MAX, rounded up, computed
    // without widening past u128.
    let quotient: u128 = sum / m;
    let remainder: u128 = sum % m;
    let scale: u128 = if remainder != 0 {
        proof {
            assert(quotient < u128::MAX) by (nonlinear_arith)
                requires
                    quotient == sum as int / m as int,
                    sum <= u128::MAX,
                    m > 1,
            {
                lemma_fundamental_div_mod(sum as int, m as int);
                lemma_mod_bound(sum as int, m as int);
            }
        }
        quotient + 1
    } else {
        quotient
    };
    proof {
        // `scale` agrees with the ceiling in `stake_scale`.
        lemma_fundamental_div_mod(sum as int, m as int);
        lemma_mod_bound(sum as int, m as int);
        if remainder != 0 {
            lemma_fundamental_div_mod_converse(
                total + (m - 1) as int,
                m as int,
                quotient as int + 1,
                remainder as int - 1,
            );
        } else {
            lemma_fundamental_div_mod_converse(
                total + (m - 1) as int,
                m as int,
                quotient as int,
                (m - 1) as int,
            );
        }
        assert(scale == stake_scale(total));
        lemma_stake_scale_bounds(total);
    }

    // Divide each stake by the scale; the running total is bounded by the
    // scaled total stake, hence by u64::MAX.
    let mut out: Vec<(PublicKey, u64)> = Vec::new();
    let mut acc: u64 = 0;
    let mut k: usize = 0;
    while k < stakes.len()
        invariant
            k <= stakes@.len(),
            out@.len() == k,
            scale == stake_scale(total),
            0 < scale,
            total == total_stake(stakes@),
            0 < total <= u128::MAX,
            total <= scale * (u64::MAX as int),
            forall|i: int|
                0 <= i < k ==> (#[trigger] out@[i]).0 == stakes@[i].0 && out@[i].1
                    == rescaled_weight(stakes@[i].1, total),
            acc == total_weight(out@),
            total_weight(out@) <= total_stake(stakes@.take(k as int)) / scale as int,
        decreases stakes@.len() - k,
    {
        let stake: u128 = stakes[k].1;
        let w128: u128 = stake / scale;
        proof {
            // This stake is at most the total, so its weight fits in u64.
            lemma_total_stake_take_succ(stakes@, k as int);
            lemma_total_stake_prefix_le(stakes@, k + 1);
            lemma_total_stake_nonneg(stakes@.take(k as int));
            assert(stake as int <= total);
            lemma_div_is_ordered(stake as int, total, scale as int);
            lemma_multiply_divide_le(total, scale as int, u64::MAX as int);
            assert(stake as int / scale as int <= u64::MAX);
            // The running total stays below the scaled prefix total.
            lemma_div_subadditive(
                total_stake(stakes@.take(k as int)),
                stake as int,
                scale as int,
            );
            lemma_div_is_ordered(total_stake(stakes@.take(k + 1 as int)), total, scale as int);
        }
        let w: u64 = w128 as u64;
        let ghost prev_out = out@;
        out.push((stakes[k].0, w));
        proof {
            assert(out@.drop_last() =~= prev_out);
        }
        acc = acc + w;
        k += 1;
    }
    proof {
        assert(stakes@.take(stakes@.len() as int) =~= stakes@);
        assert forall|i: int, j: int|
            #![trigger out@[i].1, out@[j].1]
            0 <= i < stakes@.len() && 0 <= j < stakes@.len() && stakes@[i].1 <= stakes@[j].1
                implies out@[i].1 <= out@[j].1 by {
            lemma_stake_scale_bounds(total);
            lemma_div_is_ordered(stakes@[i].1 as int, stakes@[j].1 as int, stake_scale(total));
        }
    }
    (out, acc)
}

/// The base reward for each block, in the protocol's weight domain.
pub const BLOCK_REWARD: u64 = 1_000_000_000_000;

/// A protocol upgrade scheduled at a chain height. Upgrades at or below an
/// era's starting height are folded into that era's instance identifier, so
/// that two eras with identical validator sets but different upgrade history
/// never collide.
#[derive(Clone, Debug)]
pub struct UpgradePoint {
    pub activation_point_rank: u64,
    pub upgrade_installer_bytes: Option<Vec<u8>>,
    pub upgrade_installer_args: Option<Vec<u8>>,
}

/// The immutable chain-specification parameters the supervisor consults.
#[derive(Clone, Debug)]
pub struct ChainspecParams {
    /// The chain's name, as bytes, folded into every instance identifier.
    pub name: Vec<u8>,
    /// The genesis timestamp, folded into every instance identifier.
    pub genesis_timestamp: Timestamp,
    /// The moment era 0 starts.
    pub genesis_era_start_timestamp: Timestamp,
    /// The planned duration of an era.
    pub era_duration: TimeDiff,
    /// The minimum number of blocks in an era.
    pub minimum_era_height: u64,
    /// Base-two logarithm of the minimum round length in milliseconds.
    pub minimum_round_exponent: u8,
    /// The finality threshold, as a percentage of the total rescaled weight.
    pub finality_threshold_percent: u8,
    /// Scheduled protocol upgrades, in ascending order of activation height.
    pub upgrades: Vec<UpgradePoint>,
}

impl ChainspecParams {
    /// Well-formedness of the chain specification: the round exponent fits
    /// the shift width, the finality threshold is a proper percentage, and
    /// the upgrade schedule is sorted by activation height.
    pub open spec fn wf(&self) -> bool {
        &&& self.minimum_round_exponent < 64
        &&& self.finality_threshold_percent < 100
        &&& forall|i: int, j: int|
            0 <= i <= j < self.upgrades@.len() ==> (#[trigger] self.upgrades@[i]).activation_point_rank
                <= (#[trigger] self.upgrades@[j]).activation_point_rank
    }
}

/// The bytes of one upgrade point as folded into an instance identifier: the
/// activation height, then the installer bytes and arguments where present.
pub open spec fn upgrade_point_bytes(u: UpgradePoint) -> Seq<u8> {
    vstd::bytes::spec_u64_to_le_bytes(u.activation_point_rank) + (match u.upgrade_installer_bytes {
        Option::Some(b) => b@,
        Option::None => Seq::empty(),
    }) + (match u.upgrade_installer_args {
        Option::Some(a) => a@,
        Option::None => Seq::empty(),
    })
}

/// The bytes of a list of upgrade points, in order.
pub open spec fn upgrade_list_bytes(s: Seq<UpgradePoint>) -> Seq<u8>
    decreases s.len(),
{
    if s.len() == 0 {
        Seq::empty()
    } else {
        upgrade_list_bytes(s.drop_last()) + upgrade_point_bytes(s.last())
    }
}

/// How many upgrade points of a sorted schedule activate at or below the
/// given height.
pub open spec fn applicable_count(s: Seq<UpgradePoint>, height: u64) -> int
    decreases s.len(),
{
    if s.len() == 0 {
        0
    } else if s.last().activation_point_rank <= height {
        s.len() as int
    } else {
        applicable_count(s.drop_last(), height)
    }
}

proof fn lemma_applicable_count_from_scan(s: Seq<UpgradePoint>, height: u64, k: int)
    requires
        forall|i: int, j: int|
            0 <= i <= j < s.len() ==> (#[trigger] s[i]).activation_point_rank
                <= (#[trigger] s[j]).activation_point_rank,
        0 <= k <= s.len(),
        forall|j: int| 0 <= j < k ==> (#[trigger] s[j]).activation_point_rank <= height,
        k < s.len() ==> s[k].activation_point_rank > height,
    ensures
        applicable_count(s, height) == k,
    decreases s.len(),
{
    if s.len() > 0 {
        if s.last().activation_point_rank <= height {
            if k < s.len() {
                assert(s[k].activation_point_rank <= s[s.len() - 1].activation_point_rank);
            }
        } else {
            assert(k < s.len());
            lemma_applicable_count_from_scan(s.drop_last(), height, k);
        }
    }
}

/// The bytes over which an era's instance identifier is computed: the chain
/// name, the genesis timestamp, the parent post-state hash, and every upgrade
/// activation point at or below the era's starting height.
pub open spec fn instance_id_bytes(
    cs: ChainspecParams,
    post_state_hash: Seq<u8>,
    block_height: u64,
) -> Seq<u8> {
    cs.name@ + vstd::bytes::spec_u64_to_le_bytes(cs.genesis_timestamp@) + post_state_hash
        + upgrade_list_bytes(cs.upgrades@.take(applicable_count(cs.upgrades@, block_height)))
}

/// Derives the 32-byte instance identifier of an era starting at the given
/// height with the given parent post-state hash.
pub fn instance_id(chainspec: &ChainspecParams, post_state_hash: &Digest, block_height: u64) -> (r:
    Digest)
    requires
        chainspec.wf(),
    ensures
        r@ == blake2b256_of(instance_id_bytes(*chainspec, post_state_hash@, block_height)),
{
    let mut bytes: Vec<u8> = Vec::new();
    bytes.extend_from_slice(chainspec.name.as_slice());
    push_u64_le(&mut bytes, chainspec.genesis_timestamp.millis());
    push_digest(&mut bytes, post_state_hash);
    let ghost prefix = bytes@;
    let mut i: usize = 0;
    loop
        invariant_except_break
            chainspec.wf(),
            i <= chainspec.upgrades@.len(),
            forall|j: int|
                0 <= j < i ==> (#[trigger] chainspec.upgrades@[j]).activation_point_rank
                    <= block_height,
            bytes@ == prefix + upgrade_list_bytes(chainspec.upgrades@.take(i as int)),
        ensures
            i <= chainspec.upgrades@.len(),
            forall|j: int|
                0 <= j < i ==> (#[trigger] chainspec.upgrades@[j]).activation_point_rank
                    <= block_height,
            i < chainspec.upgrades@.len() ==> chainspec.upgrades@[i as int].activation_point_rank
                > block_height,
            bytes@ == prefix + upgrade_list_bytes(chainspec.upgrades@.take(i as int)),
        decreases chainspec.upgrades@.len() - i,
    {
        if i >= chainspec.upgrades.len() {
            break ;
        }
        if chainspec.upgrades[i].activation_point_rank > block_height {
            break ;
        }
        push_u64_le(&mut bytes, chainspec.upgrades[i].activation_point_rank);
        match &chainspec.upgrades[i].upgrade_installer_bytes {
            Option::Some(b) => bytes.extend_from_slice(b.as_slice()),
            Option::None => {},
        }
        match &chainspec.upgrades[i].upgrade_installer_args {
            Option::Some(a) => bytes.extend_from_slice(a.as_slice()),
            Option::None => {},
        }
        proof {
            assert(chainspec.upgrades@.take(i + 1 as int).drop_last() =~= chainspec.upgrades@.take(
                i as int,
            ));
            assert(bytes@ =~= prefix + upgrade_list_bytes(chainspec.upgrades@.take(i + 1 as int)));
        }
        i += 1;
    }
    proof {
        lemma_applicable_count_from_scan(chainspec.upgrades@, block_height, i as int);
        assert(bytes@ =~= instance_id_bytes(*chainspec, post_state_hash@, block_height));
    }
    hash_bytes(bytes.as_slice())
}

/// The parameters a consensus protocol instance is constructed with.
#[derive(Clone, Copy, Debug, PartialEq, Eq, Structural)]
pub struct ProtocolParams {
    /// Seed for the era's leader sequence.
    pub seed: u64,
    /// The reward for finalizing a block on time.
    pub block_reward: u64,
    /// The reduced reward for finalizing a block late.
    pub reduced_block_reward: u64,
    /// Base-two logarithm of the minimum round length in milliseconds.
    pub minimum_round_exponent: u8,
    /// The minimum number of blocks the era must produce.
    pub end_height: u64,
    /// The moment after which the era may end.
    pub end_time: Timestamp,
}

/// The context a proposal request was made in.
#[derive(Clone, Copy, Debug, PartialEq, Eq, Structural)]
pub struct BlockContext {
    pub timestamp: Timestamp,
}

/// One era's consensus protocol instance, as the supervisor sees it: the
/// parameters it was constructed with and whether this node takes part in it
/// as a voting participant. The protocol's own voting state is the pluggable
/// backend's business, outside this library.
#[derive(Clone, Debug)]
pub struct ConsensusInstance {
    /// The era's 32-byte instance identifier.
    pub instance_id: Digest,
    /// The validator set, with weights rescaled into the `u64` domain.
    pub validators: Vec<(PublicKey, u64)>,
    /// The sum of the rescaled weights.
    pub total_weight: u64,
    /// The finality-threshold weight.
    pub ftt: u64,
    /// The protocol parameters.
    pub params: ProtocolParams,
    /// Whether this node is an active voting participant in the era.
    pub active: bool,
}

impl ConsensusInstance {
    /// Stops voting in this era.
    pub fn deactivate_validator(&mut self)
        ensures
            final(self).active == false,
            final(self).instance_id == old(self).instance_id,
            final(self).validators == old(self).validators,
            final(self).total_weight == old(self).total_weight,
            final(self).ftt == old(self).ftt,
            final(self).params == old(self).params,
    {
        self.active = false;
    }
}

/// One era: its consensus protocol instance and the chain height of its
/// first block.
#[derive(Clone, Debug)]
pub struct Era {
    /// The consensus protocol instance.
    pub consensus: ConsensusInstance,
    /// The height of this era's first block.
    pub start_height: u64,
}

/// A violation of the supervisor's internal invariants. Such a fault is a
/// programming error, not a network condition: the caller must abort rather
/// than silently corrupt consensus state.
#[derive(Clone, Copy, Debug, PartialEq, Eq, Structural)]
pub enum SupervisorFault {
    /// An era was created twice.
    DuplicateEra(EraId),
    /// An era was created with a zero total stake.
    ZeroTotalWeight,
    /// The era the supervisor points at as current is not in the registry.
    CurrentEraMissing,
    /// A finalized value was reported for an era the registry never held.
    UnknownEra(EraId),
}

/// The minimum round length in milliseconds, from its base-two logarithm.
pub open spec fn min_round_len(exponent: u8) -> u64 {
    1u64 << exponent
}

/// The shortest span an era can cover: its planned duration, or the minimum
/// number of blocks at the minimum round length, whichever is longer.
pub open spec fn minimum_era_span(cs: ChainspecParams) -> int {
    let rounds = min_round_len(cs.minimum_round_exponent) as int * cs.minimum_era_height as int;
    if cs.era_duration@ as int >= rounds {
        cs.era_duration@ as int
    } else {
        rounds
    }
}

/// Whether a weight table holds the given key.
pub open spec fn holds_key(validators: Seq<(PublicKey, u64)>, key: PublicKey) -> bool {
    exists|i: int| 0 <= i < validators.len() && (#[trigger] validators[i]).0@ == key@
}

/// Whether this node activates as a voting participant: it was already
/// running when the era began, the era's minimum possible span has not
/// elapsed, and its key is in the validator set.
pub open spec fn should_activate(
    node_start: Timestamp,
    start_time: Timestamp,
    timestamp: Timestamp,
    cs: ChainspecParams,
    validators: Seq<(PublicKey, u64)>,
    our_key: PublicKey,
) -> bool {
    &&& node_start@ < start_time@
    &&& start_time@ + minimum_era_span(cs) >= timestamp@
    &&& holds_key(validators, our_key)
}

/// The finality-threshold weight: the given percentage of the total weight.
pub open spec fn era_ftt(total: int, percent: u8) -> int {
    total * percent / 100
}

/// Whether an era is the one that `new_era` constructs from the given
/// arguments.
pub open spec fn era_matches(
    e: Era,
    cs: ChainspecParams,
    stakes: Seq<(PublicKey, u128)>,
    timestamp: Timestamp,
    start_time: Timestamp,
    start_height: u64,
    post_state_hash: Seq<u8>,
    node_start: Timestamp,
    our_key: PublicKey,
) -> bool {
    &&& e.start_height == start_height
    &&& e.consensus.instance_id@ == blake2b256_of(
        instance_id_bytes(cs, post_state_hash, start_height),
    )
    &&& e.consensus.validators@.len() == stakes.len()
    &&& forall|i: int|
        0 <= i < stakes.len() ==> (#[trigger] e.consensus.validators@[i]).0 == stakes[i].0
            && e.consensus.validators@[i].1 == rescaled_weight(stakes[i].1, total_stake(stakes))
    &&& e.consensus.total_weight as int == total_weight(e.consensus.validators@)
    &&& e.consensus.ftt as int == era_ftt(
        e.consensus.total_weight as int,
        cs.finality_threshold_percent,
    )
    &&& e.consensus.params == (ProtocolParams {
        seed: 0,
        block_reward: BLOCK_REWARD,
        reduced_block_reward: BLOCK_REWARD / 5,
        minimum_round_exponent: cs.minimum_round_exponent,
        end_height: cs.minimum_era_height,
        end_time: Timestamp((start_time@ + cs.era_duration@) as u64),
    })
    &&& e.consensus.active == should_activate(
        node_start,
        start_time,
        timestamp,
        cs,
        e.consensus.validators@,
        our_key,
    )
}

/// The registry after an era is inserted and the era that has become
/// obsolete, if any, is evicted.
pub open spec fn registry_after_new_era(m: Map<u64, Era>, era_id: u64, e: Era) -> Map<u64, Era> {
    let inserted = m.insert(era_id, e);
    if era_id > RETAIN_ERAS {
        inserted.remove((era_id - RETAIN_ERAS - 1) as u64)
    } else {
        inserted
    }
}

/// Sums a stake table.
pub fn sum_stakes(stakes: &Vec<(PublicKey, u128)>) -> (r: u128)
    requires
        total_stake(stakes@) <= u128::MAX,
    ensures
        r == total_stake(stakes@),
{
    let mut sum: u128 = 0;
    let mut i: usize = 0;
    while i < stakes.len()
        invariant
            i <= stakes@.len(),
            sum == total_stake(stakes@.take(i as int)),
            total_stake(stakes@) <= u128::MAX,
        decreases stakes@.len() - i,
    {
        proof {
            lemma_total_stake_take_succ(stakes@, i as int);
            lemma_total_stake_prefix_le(stakes@, i + 1);
        }
        sum = sum + stakes[i].1;
        i += 1;
    }
    proof {
        assert(stakes@.take(stakes@.len() as int) =~= stakes@);
    }
    sum
}

/// Whether a weight table holds the given key, by one pass over the table.
pub fn holds_validator(validators: &Vec<(PublicKey, u64)>, key: &PublicKey) -> (r: bool)
    ensures
        r == holds_key(validators@, *key),
{
    let mut i: usize = 0;
    while i < validators.len()
        invariant
            i <= validators@.len(),
            forall|j: int| 0 <= j < i ==> (#[trigger] validators@[j]).0@ != key@,
        decreases validators@.len() - i,
    {
        if validators[i].0.equals(key) {
            return true;
        }
        i += 1;
    }
    false
}

/// The era-scoped consensus supervisor: the bounded era registry, this node's
/// signing identity, the chain-specification parameters, and the node's start
/// time.
pub struct EraSupervisor {
    /// The registry of retained eras, keyed by era identifier.
    pub active_eras: HashMap<u64, Era>,
    /// This node's secret signing key.
    pub secret_signing_key: SecretKey,
    /// This node's public key.
    pub public_signing_key: PublicKey,
    /// The era created most recently.
    pub current_era: EraId,
    /// The immutable chain-specification parameters.
    pub chainspec: ChainspecParams,
    /// The moment this node started.
    pub node_start_time: Timestamp,
}

impl EraSupervisor {
    /// Creates a new supervisor, starting in era 0.
    pub fn new(
        timestamp: Timestamp,
        secret_signing_key: SecretKey,
        public_signing_key: PublicKey,
        validator_stakes: Vec<(PublicKey, u128)>,
        chainspec: ChainspecParams,
        genesis_post_state_hash: &Digest,
        node_start_time: Timestamp,
    ) -> (r: Result<EraSupervisor, SupervisorFault>)
        requires
            chainspec.wf(),
            total_stake(validator_stakes@) <= u128::MAX,
            chainspec.genesis_era_start_timestamp@ + chainspec.era_duration@ <= u64::MAX,
        ensures
            total_stake(validator_stakes@) == 0 <==> r == Result::<
                EraSupervisor,
                SupervisorFault,
            >::Err(SupervisorFault::ZeroTotalWeight),
            total_stake(validator_stakes@) != 0 ==> r is Ok,
            r matches Ok(s) ==> {
                &&& s.current_era == EraId(0)
                &&& s.active_eras@.contains_key(0)
                &&& forall|k: u64| s.active_eras@.contains_key(k) ==> k == 0
                &&& era_matches(
                    s.active_eras@[0],
                    chainspec,
                    validator_stakes@,
                    timestamp,
                    chainspec.genesis_era_start_timestamp,
                    0,
                    genesis_post_state_hash@,
                    node_start_time,
                    public_signing_key,
                )
                &&& s.chainspec == chainspec
                &&& s.secret_signing_key == secret_signing_key
                &&& s.public_signing_key == public_signing_key
                &&& s.node_start_time == node_start_time
                &&& registry_window_ok(s.active_eras@, 0)
            },
    {
        let era_start = chainspec.genesis_era_start_timestamp;
        let mut supervisor = EraSupervisor {
            active_eras: HashMap::new(),
            secret_signing_key,
            public_signing_key,
            current_era: EraId(0),
            chainspec,
            node_start_time,
        };
        match supervisor.new_era(
            EraId(0),
            timestamp,
            validator_stakes,
            era_start,
            0,
            genesis_post_state_hash,
        ) {
            Result::Ok(()) => Result::Ok(supervisor),
            Result::Err(fault) => Result::Err(fault),
        }
    }

    /// Starts a new era.
    ///
    /// An era that already exists, or a validator set with zero total stake,
    /// is a programming-invariant violation and is reported as a fault that
    /// the caller must treat as fatal; the supervisor is left unchanged.
    pub fn new_era(
        &mut self,
        era_id: EraId,
        timestamp: Timestamp,
        validator_stakes: Vec<(PublicKey, u128)>,
        start_time: Timestamp,
        start_height: u64,
        post_state_hash: &Digest,
    ) -> (r: Result<(), SupervisorFault>)
        requires
            old(self).chainspec.wf(),
            total_stake(validator_stakes@) <= u128::MAX,
            start_time@ + old(self).chainspec.era_duration@ <= u64::MAX,
        ensures
            final(self).chainspec == old(self).chainspec,
            final(self).secret_signing_key == old(self).secret_signing_key,
            final(self).public_signing_key == old(self).public_signing_key,
            final(self).node_start_time == old(self).node_start_time,
            r == Result::<(), SupervisorFault>::Err(SupervisorFault::DuplicateEra(era_id)) <==> old(self).active_eras@.contains_key(era_id.0),
            r == Result::<(), SupervisorFault>::Err(SupervisorFault::ZeroTotalWeight) <==> (!old(self).active_eras@.contains_key(era_id.0) && total_stake(validator_stakes@) == 0),
            r is Err ==> final(self).active_eras@ == old(self).active_eras@ && final(self).current_era == old(self).current_era,
            r is Ok <==> (!old(self).active_eras@.contains_key(era_id.0) && total_stake(
                validator_stakes@,
            ) != 0),
            r is Ok ==> {
                &&& final(self).current_era == era_id
                &&& final(self).active_eras@.contains_key(era_id.0)
                &&& era_matches(
                    final(self).active_eras@[era_id.0],
                    old(self).chainspec,
                    validator_stakes@,
                    timestamp,
                    start_time,
                    start_height,
                    post_state_hash@,
                    old(self).node_start_time,
                    old(self).public_signing_key,
                )
                &&& final(self).active_eras@ == registry_after_new_era(
                    old(self).active_eras@,
                    era_id.0,
                    final(self).active_eras@[era_id.0],
                )
            },
    {
        if self.active_eras.contains_key(&era_id.0) {
            return Result::Err(SupervisorFault::DuplicateEra(era_id));
        }
        let sum = sum_stakes(&validator_stakes);
        if sum == 0 {
            return Result::Err(SupervisorFault::ZeroTotalWeight);
        }

        // Rescale the stakes into the protocol's u64 weight domain and derive
        // the finality threshold from the rescaled total.
        let (validators, total) = rescale_stakes(&validator_stakes);
        proof {
            let t = total as int;
            let p = self.chainspec.finality_threshold_percent as int;
            assert(t * p <= t * 100 && t * 100 <= (u64::MAX as int) * 100) by (nonlinear_arith)
                requires
                    0 <= t <= u64::MAX,
                    0 <= p < 100,
            {
            }
            lemma_div_is_ordered(t * p, t * 100, 100);
            vstd::arithmetic::div_mod::lemma_div_by_multiple(t, 100);
            assert(era_ftt(t, self.chainspec.finality_threshold_percent) <= t);
        }
        let ftt128: u128 = (total as u128) * (self.chainspec.finality_threshold_percent as u128)
            / 100;
        let ftt: u64 = ftt128 as u64;

        // Derive the era's instance identifier.
        let iid = instance_id(&self.chainspec, post_state_hash, start_height);

        // Decide whether this node activates as a voting participant. The
        // minimum era span is computed in 128 bits so that it cannot
        // overflow.
        let round_len: u64 = 1u64 << self.chainspec.minimum_round_exponent;
        proof {
            assert((round_len as int) * (self.chainspec.minimum_era_height as int) <= (
            u64::MAX as int) * (u64::MAX as int) && (u64::MAX as int) * (u64::MAX as int)
                < u128::MAX) by (nonlinear_arith)
                requires
                    0 <= round_len as int <= u64::MAX,
                    0 <= self.chainspec.minimum_era_height as int <= u64::MAX,
            {
            }
        }
        let rounds_span: u128 = (round_len as u128) * (self.chainspec.minimum_era_height as u128);
        let span: u128 = if (self.chainspec.era_duration.millis() as u128) >= rounds_span {
            self.chainspec.era_duration.millis() as u128
        } else {
            rounds_span
        };
        proof {
            assert(span as int == minimum_era_span(self.chainspec));
            assert(span as int <= (u64::MAX as int) * (u64::MAX as int)) by (nonlinear_arith)
                requires
                    span as int == (round_len as int) * (self.chainspec.minimum_era_height as int)
                        || span <= u64::MAX,
                    0 <= round_len as int <= u64::MAX,
                    0 <= self.chainspec.minimum_era_height as int <= u64::MAX,
            {
            }
            assert(start_time@ as int + span as int <= u128::MAX) by (nonlinear_arith)
                requires
                    0 <= start_time@ as int <= u64::MAX,
                    0 <= span as int <= (u64::MAX as int) * (u64::MAX as int),
            {
            }
        }
        let is_validator = holds_validator(&validators, &self.public_signing_key);
        let active = self.node_start_time.millis() < start_time.millis() && (start_time.millis()
            as u128) + span >= (timestamp.millis() as u128) && is_validator;

        let params = ProtocolParams {
            seed: 0,
            block_reward: BLOCK_REWARD,
            reduced_block_reward: BLOCK_REWARD / 5,
            minimum_round_exponent: self.chainspec.minimum_round_exponent,
            end_height: self.chainspec.minimum_era_height,
            end_time: start_time.add_diff(self.chainspec.era_duration),
        };
        let era = Era {
            consensus: ConsensusInstance {
                instance_id: iid,
                validators,
                total_weight: total,
                ftt,
                params,
                active,
            },
            start_height,
        };
        self.active_eras.insert(era_id.0, era);
        self.current_era = era_id;

        // Evict the era that has become obsolete now.
        if era_id.0 > RETAIN_ERAS {
            self.active_eras.remove(&(era_id.0 - RETAIN_ERAS - 1));
        }
        Result::Ok(())
    }

    /// Stops voting in the current era.
    ///
    /// A current era missing from the registry is a programming-invariant
    /// violation, reported as a fault the caller must treat as fatal.
    pub fn deactivate_current_era(&mut self) -> (r: Result<(), SupervisorFault>)
        ensures
            final(self).chainspec == old(self).chainspec,
            final(self).secret_signing_key == old(self).secret_signing_key,
            final(self).public_signing_key == old(self).public_signing_key,
            final(self).node_start_time == old(self).node_start_time,
            final(self).current_era == old(self).current_era,
            r is Err <==> !old(self).active_eras@.contains_key(old(self).current_era.0),
            r is Err ==> r == Result::<(), SupervisorFault>::Err(SupervisorFault::CurrentEraMissing)
                && final(self).active_eras@ == old(self).active_eras@,
            r is Ok ==> {
                &&& final(self).active_eras@.dom() == old(self).active_eras@.dom()
                &&& final(self).active_eras@[old(self).current_era.0].consensus.active == false
                &&& final(self).active_eras@[old(self).current_era.0].consensus.instance_id == old(self).active_eras@[old(self).current_era.0].consensus.instance_id
                &&& final(self).active_eras@[old(self).current_era.0].consensus.validators == old(self).active_eras@[old(self).current_era.0].consensus.validators
                &&& final(self).active_eras@[old(self).current_era.0].consensus.total_weight == old(self).active_eras@[old(self).current_era.0].consensus.total_weight
                &&& final(self).active_eras@[old(self).current_era.0].consensus.ftt == old(self).active_eras@[old(self).current_era.0].consensus.ftt
                &&& final(self).active_eras@[old(self).current_era.0].consensus.params == old(self).active_eras@[old(self).current_era.0].consensus.params
                &&& final(self).active_eras@[old(self).current_era.0].start_height == old(self).active_eras@[old(self).current_era.0].start_height
                &&& forall|k: u64|
                    k != old(self).current_era.0 ==> (#[trigger] final(self).active_eras@[k]) == old(self).active_eras@[k]
            },
    {
        match self.active_eras.remove(&self.current_era.0) {
            Option::None => Result::Err(SupervisorFault::CurrentEraMissing),
            Option::Some(mut era) => {
                era.consensus.deactivate_validator();
                let key = self.current_era.0;
                self.active_eras.insert(key, era);
                proof {
                    assert(self.active_eras@.dom() =~= old(self).active_eras@.dom());
                }
                Result::Ok(())
            },
        }
    }
}

/// What a consensus protocol instance reports upward to the supervisor: the
/// closed vocabulary of protocol results.
#[derive(Clone, Debug)]
pub enum ProtocolOutcome {
    /// An incoming message was invalid. Adversarial input; absorbed.
    InvalidIncomingMessage { sender: NodeId, payload: Vec<u8> },
    /// A message to broadcast to all peers.
    CreatedGossipMessage(Vec<u8>),
    /// A message to send to one peer.
    CreatedTargetedMessage(Vec<u8>, NodeId),
    /// A wake-up call wanted at the given moment.
    ScheduleTimer(Timestamp),
    /// A new block proposal is wanted.
    CreateNewBlock { block_context: BlockContext },
    /// A value reached finality at the given height within the era.
    FinalizedBlock {
        value: ProtoBlock,
        timestamp: Timestamp,
        height: u64,
        era_end: Option<EraEnd>,
        proposer: PublicKey,
    },
    /// An externally received candidate must be validated.
    ValidateConsensusValue { sender: NodeId, proto_block: ProtoBlock },
}

/// An externally visible effect the supervisor asks its caller to perform.
#[derive(Clone, Debug)]
pub enum Effect {
    /// Hand the message to the network layer for broadcast.
    BroadcastMessage(ConsensusMessage),
    /// Hand the message to the network layer for one peer.
    SendMessage(NodeId, ConsensusMessage),
    /// Schedule a wake-up after `delay` that fires as a timer event carrying
    /// the era and the timestamp.
    SetTimeout { era_id: EraId, timestamp: Timestamp, delay: TimeDiff },
    /// Ask the external proposal-construction collaborator for content.
    RequestProtoBlock { era_id: EraId, block_context: BlockContext, seed: u64 },
    /// Announce a proposed proto block.
    AnnounceProposedProtoBlock(ProtoBlock),
    /// Announce a finalized block.
    AnnounceFinalizedBlock(FinalizedBlock),
    /// Forward a finalized block to the block executor.
    ExecuteBlock(FinalizedBlock),
    /// Ask the external validity-checking collaborator about a candidate.
    ValidateBlock { era_id: EraId, sender: NodeId, proto_block: ProtoBlock },
    /// Sign the block hash with this node's key and reply to the requester.
    RespondSignature { block_hash: BlockHash },
    /// Ask the execution-state collaborator for the validator weights of the
    /// given era, read from the given global state.
    RequestValidators { global_state_hash: Digest, era_id: EraId },
    /// Announce that the block with this header has been fully handled.
    AnnounceBlockHandled(BlockHeader),
}

/// A call the supervisor delegates to one era's consensus protocol instance.
/// The caller owns the protocol backends and performs the call.
#[derive(Clone, Debug)]
pub enum DelegatedAction {
    /// Let the era's instance handle a timer that fired.
    HandleTimer { era_id: EraId, timestamp: Timestamp },
    /// Let the era's instance handle an incoming message.
    HandleMessage { era_id: EraId, sender: NodeId, payload: Vec<u8> },
    /// Let the era's instance propose a proto block.
    Propose { era_id: EraId, proto_block: ProtoBlock, block_context: BlockContext },
    /// Tell the era's instance whether a candidate proved valid.
    ResolveValidity { era_id: EraId, proto_block: ProtoBlock, valid: bool },
}

/// Where an inbound event was routed: delegated to the era it names, or
/// dropped because that era has not been created yet or was already evicted.
#[derive(Clone, Debug)]
pub enum Routing {
    /// The era exists; its protocol instance handles the event.
    Delegate(DelegatedAction),
    /// The era has not been created yet; the event is dropped.
    DroppedFuture,
    /// The era was evicted, or never existed though older than the current
    /// one; the event is dropped.
    DroppedObsolete,
}

/// The registry after the era the supervisor points at stops voting.
pub open spec fn deactivated_registry(m: Map<u64, Era>, k: u64) -> Map<u64, Era> {
    if m.contains_key(k) {
        m.insert(
            k,
            Era {
                consensus: ConsensusInstance { active: false, ..m[k].consensus },
                start_height: m[k].start_height,
            },
        )
    } else {
        m
    }
}

impl EraSupervisor {
    /// Routes a timer that fired for the given era to that era's protocol
    /// instance; a timer for an unknown era refers to a future or obsolete
    /// era and is dropped.
    pub fn handle_timer(&self, era_id: EraId, timestamp: Timestamp) -> (r: Routing)
        ensures
            self.active_eras@.contains_key(era_id.0) ==> r == Routing::Delegate(
                DelegatedAction::HandleTimer { era_id, timestamp },
            ),
            !self.active_eras@.contains_key(era_id.0) && era_id.0 > self.current_era.0 ==> r
                == Routing::DroppedFuture,
            !self.active_eras@.contains_key(era_id.0) && era_id.0 <= self.current_era.0 ==> r
                == Routing::DroppedObsolete,
    {
        if self.active_eras.contains_key(&era_id.0) {
            Routing::Delegate(DelegatedAction::HandleTimer { era_id, timestamp })
        } else if era_id.0 > self.current_era.0 {
            Routing::DroppedFuture
        } else {
            Routing::DroppedObsolete
        }
    }

    /// Routes an incoming consensus message to the era it is tagged with; a
    /// message for an unknown era is dropped.
    pub fn handle_message(&self, sender: NodeId, msg: ConsensusMessage) -> (r: Routing)
        ensures
            self.active_eras@.contains_key(msg.era_id.0) ==> (r matches Routing::Delegate(a)
                && a matches DelegatedAction::HandleMessage { era_id, sender: s, payload }
                && era_id == msg.era_id && s == sender && payload == msg.payload),
            !self.active_eras@.contains_key(msg.era_id.0) && msg.era_id.0 > self.current_era.0
                ==> r == Routing::DroppedFuture,
            !self.active_eras@.contains_key(msg.era_id.0) && msg.era_id.0 <= self.current_era.0
                ==> r == Routing::DroppedObsolete,
    {
        let ConsensusMessage { era_id, payload } = msg;
        if self.active_eras.contains_key(&era_id.0) {
            Routing::Delegate(DelegatedAction::HandleMessage { era_id, sender, payload })
        } else if era_id.0 > self.current_era.0 {
            Routing::DroppedFuture
        } else {
            Routing::DroppedObsolete
        }
    }

    /// Announces a newly constructed proto block and routes it to its era for
    /// proposing.
    pub fn handle_new_proto_block(
        &self,
        era_id: EraId,
        proto_block: ProtoBlock,
        block_context: BlockContext,
    ) -> (r: (Vec<Effect>, Routing))
        ensures
            r.0@.len() == 1,
            r.0@[0] matches Effect::AnnounceProposedProtoBlock(p) && p.hash == proto_block.hash
                && p.deploys@ == proto_block.deploys@ && p.random_bit == proto_block.random_bit,
            self.active_eras@.contains_key(era_id.0) ==> (r.1 matches Routing::Delegate(a)
                && a matches DelegatedAction::Propose { era_id: e, proto_block: p, block_context: c }
                && e == era_id && p == proto_block && c == block_context),
            !self.active_eras@.contains_key(era_id.0) && era_id.0 > self.current_era.0 ==> r.1
                == Routing::DroppedFuture,
            !self.active_eras@.contains_key(era_id.0) && era_id.0 <= self.current_era.0 ==> r.1
                == Routing::DroppedObsolete,
    {
        let announce = Effect::AnnounceProposedProtoBlock(proto_block.duplicate());
        let mut effects: Vec<Effect> = Vec::new();
        effects.push(announce);
        let routing = if self.active_eras.contains_key(&era_id.0) {
            Routing::Delegate(DelegatedAction::Propose { era_id, proto_block, block_context })
        } else if era_id.0 > self.current_era.0 {
            Routing::DroppedFuture
        } else {
            Routing::DroppedObsolete
        };
        (effects, routing)
    }

    /// Announces an accepted proto block and routes the positive validity
    /// verdict to its era.
    pub fn handle_accept_proto_block(&self, era_id: EraId, proto_block: ProtoBlock) -> (r: (
        Vec<Effect>,
        Routing,
    ))
        ensures
            r.0@.len() == 1,
            r.0@[0] matches Effect::AnnounceProposedProtoBlock(p) && p.hash == proto_block.hash
                && p.deploys@ == proto_block.deploys@ && p.random_bit == proto_block.random_bit,
            self.active_eras@.contains_key(era_id.0) ==> (r.1 matches Routing::Delegate(a)
                && a matches DelegatedAction::ResolveValidity { era_id: e, proto_block: p, valid }
                && e == era_id && p == proto_block && valid == true),
            !self.active_eras@.contains_key(era_id.0) && era_id.0 > self.current_era.0 ==> r.1
                == Routing::DroppedFuture,
            !self.active_eras@.contains_key(era_id.0) && era_id.0 <= self.current_era.0 ==> r.1
                == Routing::DroppedObsolete,
    {
        let announce = Effect::AnnounceProposedProtoBlock(proto_block.duplicate());
        let mut effects: Vec<Effect> = Vec::new();
        effects.push(announce);
        let routing = if self.active_eras.contains_key(&era_id.0) {
            Routing::Delegate(
                DelegatedAction::ResolveValidity { era_id, proto_block, valid: true },
            )
        } else if era_id.0 > self.current_era.0 {
            Routing::DroppedFuture
        } else {
            Routing::DroppedObsolete
        };
        (effects, routing)
    }

    /// Routes the negative validity verdict for a proto block to its era.
    pub fn handle_invalid_proto_block(
        &self,
        era_id: EraId,
        _sender: NodeId,
        proto_block: ProtoBlock,
    ) -> (r: Routing)
        ensures
            self.active_eras@.contains_key(era_id.0) ==> (r matches Routing::Delegate(a)
                && a matches DelegatedAction::ResolveValidity { era_id: e, proto_block: p, valid }
                && e == era_id && p == proto_block && valid == false),
            !self.active_eras@.contains_key(era_id.0) && era_id.0 > self.current_era.0 ==> r
                == Routing::DroppedFuture,
            !self.active_eras@.contains_key(era_id.0) && era_id.0 <= self.current_era.0 ==> r
                == Routing::DroppedObsolete,
    {
        if self.active_eras.contains_key(&era_id.0) {
            Routing::Delegate(DelegatedAction::ResolveValidity { era_id, proto_block, valid: false })
        } else if era_id.0 > self.current_era.0 {
            Routing::DroppedFuture
        } else {
            Routing::DroppedObsolete
        }
    }

    /// Decides what happens when a block of the linear chain has been
    /// executed: its header is signed and the reply sent at once, whatever
    /// else happens. A header of a stale era is then finished. A switch block
    /// defers the "handled" announcement until the successor era's validator
    /// weights arrive; any other block is announced as handled immediately.
    pub fn handle_linear_chain_block(&self, block_header: BlockHeader) -> (r: Vec<Effect>)
        requires
            block_header.era_id.0 < u64::MAX,
        ensures
            r@.len() >= 1,
            r@[0] matches Effect::RespondSignature { block_hash } && block_hash@ == blake2b256_of(
                header_bytes(block_header),
            ),
            block_header.era_id.0 < self.current_era.0 ==> r@.len() == 1,
            block_header.era_id.0 >= self.current_era.0 && block_header.era_end is Some ==> {
                &&& r@.len() == 2
                &&& r@[1] matches Effect::RequestValidators { global_state_hash, era_id }
                    && global_state_hash == block_header.global_state_hash && era_id.0
                    == block_header.era_id.0 + 1
            },
            block_header.era_id.0 >= self.current_era.0 && block_header.era_end is None ==> {
                &&& r@.len() == 2
                &&& r@[1] matches Effect::AnnounceBlockHandled(h) && h == block_header
            },
    {
        let block_hash = block_header.hash();
        let mut effects: Vec<Effect> = Vec::new();
        effects.push(Effect::RespondSignature { block_hash });
        if block_header.era_id().0 < self.current_era.0 {
            // A block of an old era; signing was all that was left to do.
            return effects;
        }
        if block_header.switch_block() {
            // The successor era's validator weights must arrive before the
            // block counts as handled.
            let era_id = block_header.era_id().successor();
            let global_state_hash = *block_header.global_state_hash();
            effects.push(Effect::RequestValidators { global_state_hash, era_id });
        } else {
            effects.push(Effect::AnnounceBlockHandled(block_header));
        }
        effects
    }

    /// Rotates eras once the successor era's validator weights arrived: the
    /// current era stops voting, the successor era is created with the switch
    /// block's timestamp as its start time and the next chain height as its
    /// starting height, and only then is the switch block announced as
    /// handled.
    pub fn handle_get_validators_response(
        &mut self,
        block_header: BlockHeader,
        validator_weights: Vec<(PublicKey, u128)>,
        now: Timestamp,
    ) -> (r: Result<Vec<Effect>, SupervisorFault>)
        requires
            old(self).chainspec.wf(),
            total_stake(validator_weights@) <= u128::MAX,
            block_header.era_id.0 < u64::MAX,
            block_header.height < u64::MAX,
            block_header.timestamp@ + old(self).chainspec.era_duration@ <= u64::MAX,
        ensures
            final(self).chainspec == old(self).chainspec,
            final(self).secret_signing_key == old(self).secret_signing_key,
            final(self).public_signing_key == old(self).public_signing_key,
            final(self).node_start_time == old(self).node_start_time,
            !old(self).active_eras@.contains_key(old(self).current_era.0) ==> r == Result::<
                Vec<Effect>,
                SupervisorFault,
            >::Err(SupervisorFault::CurrentEraMissing) && final(self).active_eras@ == old(
                self,
            ).active_eras@ && final(self).current_era == old(self).current_era,
            old(self).active_eras@.contains_key(old(self).current_era.0) && old(
                self,
            ).active_eras@.contains_key((block_header.era_id.0 + 1) as u64) ==> r == Result::<
                Vec<Effect>,
                SupervisorFault,
            >::Err(SupervisorFault::DuplicateEra(EraId((block_header.era_id.0 + 1) as u64))),
            old(self).active_eras@.contains_key(old(self).current_era.0) && !old(
                self,
            ).active_eras@.contains_key((block_header.era_id.0 + 1) as u64) && total_stake(
                validator_weights@,
            ) == 0 ==> r == Result::<Vec<Effect>, SupervisorFault>::Err(
                SupervisorFault::ZeroTotalWeight,
            ),
            r is Err ==> final(self).current_era == old(self).current_era,
            r is Ok <==> (old(self).active_eras@.contains_key(old(self).current_era.0) && !old(
                self,
            ).active_eras@.contains_key((block_header.era_id.0 + 1) as u64) && total_stake(
                validator_weights@,
            ) != 0),
            r matches Ok(effects) ==> {
                &&& effects@.len() == 1
                &&& effects@[0] matches Effect::AnnounceBlockHandled(h) && h == block_header
                &&& final(self).current_era == EraId((block_header.era_id.0 + 1) as u64)
                &&& final(self).active_eras@.contains_key((block_header.era_id.0 + 1) as u64)
                &&& era_matches(
                    final(self).active_eras@[(block_header.era_id.0 + 1) as u64],
                    old(self).chainspec,
                    validator_weights@,
                    now,
                    block_header.timestamp,
                    (block_header.height + 1) as u64,
                    block_header.global_state_hash@,
                    old(self).node_start_time,
                    old(self).public_signing_key,
                )
                &&& final(self).active_eras@ == registry_after_new_era(
                    deactivated_registry(old(self).active_eras@, old(self).current_era.0),
                    (block_header.era_id.0 + 1) as u64,
                    final(self).active_eras@[(block_header.era_id.0 + 1) as u64],
                )
            },
    {
        match self.deactivate_current_era() {
            Result::Err(fault) => {
                return Result::Err(fault);
            },
            Result::Ok(()) => {},
        }
        proof {
            assert(self.active_eras@ =~= deactivated_registry(
                old(self).active_eras@,
                old(self).current_era.0,
            ));
        }
        let new_era_id = block_header.era_id().successor();
        let start_height = block_header.height() + 1;
        let era_start_time = block_header.timestamp();
        let result = self.new_era(
            new_era_id,
            now,
            validator_weights,
            era_start_time,
            start_height,
            block_header.global_state_hash(),
        );
        match result {
            Result::Err(fault) => Result::Err(fault),
            Result::Ok(()) => {
                let mut effects: Vec<Effect> = Vec::new();
                effects.push(Effect::AnnounceBlockHandled(block_header));
                Result::Ok(effects)
            },
        }
    }

    /// Translates one protocol result into externally visible effects, per
    /// the fixed vocabulary: invalid input is absorbed; messages go to the
    /// network tagged with the era; a timer request becomes a wake-up no
    /// further away than the requested moment; a block request goes to the
    /// proposal collaborator with a fresh random seed; a finalized value
    /// becomes a `FinalizedBlock` at the era's starting height plus the
    /// protocol's height, announced and forwarded for execution; a validation
    /// request goes to the validity-checking collaborator.
    ///
    /// A finalized value for an era the registry does not hold is a
    /// programming-invariant violation, reported as a fault the caller must
    /// treat as fatal.
    pub fn handle_consensus_result(&self, era_id: EraId, result: ProtocolOutcome) -> (r: Result<
        Vec<Effect>,
        SupervisorFault,
    >)
        requires
            result matches ProtocolOutcome::FinalizedBlock { height, .. } ==> (
            self.active_eras@.contains_key(era_id.0)
                ==> self.active_eras@[era_id.0].start_height + height <= u64::MAX),
        ensures
            r is Err <==> (result matches ProtocolOutcome::FinalizedBlock { .. }
                && !self.active_eras@.contains_key(era_id.0)),
            r is Err ==> r == Result::<Vec<Effect>, SupervisorFault>::Err(
                SupervisorFault::UnknownEra(era_id),
            ),
            match result {
                ProtocolOutcome::InvalidIncomingMessage { .. } => r matches Ok(e) && e@.len() == 0,
                ProtocolOutcome::CreatedGossipMessage(payload) => r matches Ok(e) && e@.len() == 1
                    && (e@[0] matches Effect::BroadcastMessage(m) && m.era_id == era_id
                    && m.payload == payload),
                ProtocolOutcome::CreatedTargetedMessage(payload, to) => r matches Ok(e) && e@.len()
                    == 1 && (e@[0] matches Effect::SendMessage(peer, m) && peer == to && m.era_id
                    == era_id && m.payload == payload),
                ProtocolOutcome::ScheduleTimer(timestamp) => r matches Ok(e) && e@.len() == 1 && (
                e@[0] matches Effect::SetTimeout { era_id: eid, timestamp: t, delay } && eid
                    == era_id && t == timestamp && delay@ <= timestamp@),
                ProtocolOutcome::CreateNewBlock { block_context } => r matches Ok(e) && e@.len()
                    == 1 && (e@[0] matches Effect::RequestProtoBlock {
                    era_id: eid,
                    block_context: c,
                    seed: _,
                } && eid == era_id && c == block_context),
                ProtocolOutcome::FinalizedBlock { value, timestamp, height, era_end, proposer } => (
                self.active_eras@.contains_key(era_id.0) ==> (r matches Ok(e) && e@.len() == 2 && (
                e@[1] matches Effect::ExecuteBlock(fb) && fb.proto_block == value && fb.timestamp
                    == timestamp && fb.era_end == era_end && fb.era_id == era_id && fb.height
                    == self.active_eras@[era_id.0].start_height + height && fb.proposer == proposer
                    && (e@[0] matches Effect::AnnounceFinalizedBlock(fa) && finalized_block_like(
                    fa,
                    fb,
                ))))),
                ProtocolOutcome::ValidateConsensusValue { sender, proto_block } => r matches Ok(e)
                    && e@.len() == 1 && (e@[0] matches Effect::ValidateBlock {
                    era_id: eid,
                    sender: s,
                    proto_block: p,
                } && eid == era_id && s == sender && p == proto_block),
            },
    {
        match result {
            ProtocolOutcome::InvalidIncomingMessage { sender: _, payload: _ } => {
                // Adversarial input: absorbed, never propagated as a fault.
                Result::Ok(Vec::new())
            },
            ProtocolOutcome::CreatedGossipMessage(payload) => {
                let mut effects: Vec<Effect> = Vec::new();
                effects.push(Effect::BroadcastMessage(era_id.message(payload)));
                Result::Ok(effects)
            },
            ProtocolOutcome::CreatedTargetedMessage(payload, to) => {
                let mut effects: Vec<Effect> = Vec::new();
                effects.push(Effect::SendMessage(to, era_id.message(payload)));
                Result::Ok(effects)
            },
            ProtocolOutcome::ScheduleTimer(timestamp) => {
                let delay = timestamp.saturating_sub(Timestamp::now());
                let mut effects: Vec<Effect> = Vec::new();
                effects.push(Effect::SetTimeout { era_id, timestamp, delay });
                Result::Ok(effects)
            },
            ProtocolOutcome::CreateNewBlock { block_context } => {
                let seed = random_u64();
                let mut effects: Vec<Effect> = Vec::new();
                effects.push(Effect::RequestProtoBlock { era_id, block_context, seed });
                Result::Ok(effects)
            },
            ProtocolOutcome::FinalizedBlock { value, timestamp, height, era_end, proposer } => {
                let start_height = match self.active_eras.get(&era_id.0) {
                    Option::None => {
                        return Result::Err(SupervisorFault::UnknownEra(era_id));
                    },
                    Option::Some(era) => era.start_height,
                };
                let finalized_block = FinalizedBlock::new(
                    value,
                    timestamp,
                    era_end,
                    era_id,
                    start_height + height,
                    proposer,
                );
                let announced = finalized_block.duplicate();
                let mut effects: Vec<Effect> = Vec::new();
                effects.push(Effect::AnnounceFinalizedBlock(announced));
                effects.push(Effect::ExecuteBlock(finalized_block));
                Result::Ok(effects)
            },
            ProtocolOutcome::ValidateConsensusValue { sender, proto_block } => {
                let mut effects: Vec<Effect> = Vec::new();
                effects.push(Effect::ValidateBlock { era_id, sender, proto_block });
                Result::Ok(effects)
            },
        }
    }
}

/// The lowest era identifier the registry retains when the current era is
/// `cur`.
pub open spec fn window_low(cur: u64) -> int {
    if cur > RETAIN_ERAS {
        cur - RETAIN_ERAS
    } else {
        0
    }
}

/// The registry holds exactly the eras of the retention window ending at the
/// current era.
pub open spec fn registry_window_ok(m: Map<u64, Era>, cur: u64) -> bool {
    forall|id: u64| m.contains_key(id) <==> window_low(cur) <= id <= cur
}

/// Creating the next era in sequence slides the retention window by one:
/// the successor is inserted and exactly the era that fell out of the window
/// is evicted.
pub proof fn lemma_sequential_creation_keeps_window(m: Map<u64, Era>, cur: u64, e: Era)
    requires
        registry_window_ok(m, cur),
        cur < u64::MAX,
    ensures
        registry_window_ok(registry_after_new_era(m, (cur + 1) as u64, e), (cur + 1) as u64),
{
    let next = (cur + 1) as u64;
    let after = registry_after_new_era(m, next, e);
    assert forall|id: u64| after.contains_key(id) <==> window_low(next) <= id <= next by {
        if next > RETAIN_ERAS {
            assert(after =~= m.insert(next, e).remove((next - RETAIN_ERAS - 1) as u64));
        } else {
            assert(after =~= m.insert(next, e));
        }
    }
}

/// Stopping the current era's voting participation does not change which
/// eras the registry holds.
pub proof fn lemma_deactivation_keeps_window(m: Map<u64, Era>, cur: u64, k: u64)
    requires
        registry_window_ok(m, cur),
    ensures
        registry_window_ok(deactivated_registry(m, k), cur),
{
}

/// Bounded, idempotent eviction: whenever the registry window invariant
/// holds, every era at least `RETAIN_ERAS + 1` behind the current era is
/// gone from the registry, and every era inside the window is still there.
pub proof fn lemma_window_retention(m: Map<u64, Era>, cur: u64)
    requires
        registry_window_ok(m, cur),
    ensures
        forall|id: u64| id + RETAIN_ERAS + 1 <= cur ==> !m.contains_key(id),
        forall|id: u64| window_low(cur) <= id <= cur ==> m.contains_key(id),
{
}

} // verus!
