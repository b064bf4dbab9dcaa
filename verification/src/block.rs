//! Shared chain types: proposal candidates, finalized blocks, and executed
//! blocks, each content-addressed by the hash of its framed contents.

use vstd::prelude::*;

use crate::encoding::{bool_byte, push_bool, push_digest, push_public_key, push_u64_le};
use crate::era_supervisor::EraId;
use crate::hashing::{blake2b256_of, hash_bytes, Digest};
use crate::keys::{PublicKey, Signature};
use crate::timestamp::Timestamp;

verus! {

/// Identifier of a transaction (deploy) referenced by a block.
#[derive(Clone, Copy, Debug)]
pub struct DeployHash(pub Digest);

impl View for DeployHash {
    type V = Seq<u8>;

    open spec fn view(&self) -> Seq<u8> {
        self.0@
    }
}

impl DeployHash {
    /// Byte-wise equality of two deploy hashes.
    pub fn equals(&self, other: &DeployHash) -> (r: bool)
        ensures
            r == (self@ == other@),
    {
        self.0.equals(&other.0)
    }
}

impl PartialEq for DeployHash {
    fn eq(&self, other: &DeployHash) -> (r: bool) {
        self.0.equals(&other.0)
    }
}

impl Eq for DeployHash {}

impl vstd::std_specs::cmp::PartialEqSpecImpl for DeployHash {
    open spec fn obeys_eq_spec() -> bool {
        true
    }

    open spec fn eq_spec(&self, other: &DeployHash) -> bool {
        self@ == other@
    }
}

/// A transaction, as far as the pipeline reads it: the identifier under which
/// it was stored. Its body is resolved and executed outside the pipeline.
#[derive(Clone, Copy, Debug)]
pub struct Deploy {
    pub hash: DeployHash,
}

impl Deploy {
    /// Constructs a deploy with the given identifier.
    pub fn new(hash: DeployHash) -> (r: Deploy)
        ensures
            r.hash == hash,
    {
        Deploy { hash }
    }

    /// The identifier under which this deploy is stored.
    pub fn id(&self) -> (r: &DeployHash)
        ensures
            *r == self.hash,
    {
        &self.hash
    }
}

/// The bytes of a list of deploy hashes, in order, without a count prefix.
pub open spec fn deploy_hash_list_bytes(s: Seq<DeployHash>) -> Seq<u8>
    decreases s.len(),
{
    if s.len() == 0 {
        Seq::empty()
    } else {
        deploy_hash_list_bytes(s.drop_last()) + s.last()@
    }
}

/// The bytes of a list of public keys, in order, without a count prefix.
pub open spec fn public_key_list_bytes(s: Seq<PublicKey>) -> Seq<u8>
    decreases s.len(),
{
    if s.len() == 0 {
        Seq::empty()
    } else {
        public_key_list_bytes(s.drop_last()) + s.last()@
    }
}

/// The bytes of a list of per-validator reward amounts, in order, without a
/// count prefix.
pub open spec fn reward_list_bytes(s: Seq<(PublicKey, u64)>) -> Seq<u8>
    decreases s.len(),
{
    if s.len() == 0 {
        Seq::empty()
    } else {
        reward_list_bytes(s.drop_last()) + s.last().0@ + vstd::bytes::spec_u64_to_le_bytes(
            s.last().1,
        )
    }
}

/// Appends a count-prefixed list of deploy hashes.
pub fn push_deploy_hashes(out: &mut Vec<u8>, deploys: &Vec<DeployHash>)
    ensures
        final(out)@ == old(out)@ + vstd::bytes::spec_u64_to_le_bytes(deploys@.len() as u64)
            + deploy_hash_list_bytes(deploys@),
{
    push_u64_le(out, deploys.len() as u64);
    let ghost start = out@;
    let mut i: usize = 0;
    while i < deploys.len()
        invariant
            i <= deploys@.len(),
            out@ == start + deploy_hash_list_bytes(deploys@.take(i as int)),
        decreases deploys@.len() - i,
    {
        push_digest(out, &deploys[i].0);
        proof {
            assert(deploys@.take(i + 1 as int).drop_last() =~= deploys@.take(i as int));
        }
        i += 1;
    }
    proof {
        assert(deploys@.take(deploys@.len() as int) =~= deploys@);
    }
}

/// Appends a count-prefixed list of public keys.
pub fn push_public_keys(out: &mut Vec<u8>, keys: &Vec<PublicKey>)
    ensures
        final(out)@ == old(out)@ + vstd::bytes::spec_u64_to_le_bytes(keys@.len() as u64)
            + public_key_list_bytes(keys@),
{
    push_u64_le(out, keys.len() as u64);
    let ghost start = out@;
    let mut i: usize = 0;
    while i < keys.len()
        invariant
            i <= keys@.len(),
            out@ == start + public_key_list_bytes(keys@.take(i as int)),
        decreases keys@.len() - i,
    {
        push_public_key(out, &keys[i]);
        proof {
            assert(keys@.take(i + 1 as int).drop_last() =~= keys@.take(i as int));
        }
        i += 1;
    }
    proof {
        assert(keys@.take(keys@.len() as int) =~= keys@);
    }
}

/// Appends a count-prefixed list of per-validator rewards.
pub fn push_rewards(out: &mut Vec<u8>, rewards: &Vec<(PublicKey, u64)>)
    ensures
        final(out)@ == old(out)@ + vstd::bytes::spec_u64_to_le_bytes(rewards@.len() as u64)
            + reward_list_bytes(rewards@),
{
    push_u64_le(out, rewards.len() as u64);
    let ghost start = out@;
    let mut i: usize = 0;
    while i < rewards.len()
        invariant
            i <= rewards@.len(),
            out@ == start + reward_list_bytes(rewards@.take(i as int)),
        decreases rewards@.len() - i,
    {
        push_public_key(out, &rewards[i].0);
        push_u64_le(out, rewards[i].1);
        proof {
            assert(rewards@.take(i + 1 as int).drop_last() =~= rewards@.take(i as int));
        }
        i += 1;
    }
    proof {
        assert(rewards@.take(rewards@.len() as int) =~= rewards@);
    }
}

/// Copies a list of deploy hashes element by element.
pub fn copy_deploy_hashes(v: &Vec<DeployHash>) -> (r: Vec<DeployHash>)
    ensures
        r@ == v@,
{
    let mut out: Vec<DeployHash> = Vec::new();
    let mut i: usize = 0;
    while i < v.len()
        invariant
            i <= v@.len(),
            out@ == v@.take(i as int),
        decreases v@.len() - i,
    {
        out.push(v[i]);
        proof {
            assert(v@.take(i + 1 as int) =~= v@.take(i as int).push(v@[i as int]));
        }
        i += 1;
    }
    proof {
        assert(v@.take(v@.len() as int) =~= v@);
    }
    out
}

/// Copies a list of public keys element by element.
pub fn copy_public_keys(v: &Vec<PublicKey>) -> (r: Vec<PublicKey>)
    ensures
        r@ == v@,
{
    let mut out: Vec<PublicKey> = Vec::new();
    let mut i: usize = 0;
    while i < v.len()
        invariant
            i <= v@.len(),
            out@ == v@.take(i as int),
        decreases v@.len() - i,
    {
        out.push(v[i]);
        proof {
            assert(v@.take(i + 1 as int) =~= v@.take(i as int).push(v@[i as int]));
        }
        i += 1;
    }
    proof {
        assert(v@.take(v@.len() as int) =~= v@);
    }
    out
}

/// Copies a reward table element by element.
pub fn copy_rewards(v: &Vec<(PublicKey, u64)>) -> (r: Vec<(PublicKey, u64)>)
    ensures
        r@ == v@,
{
    let mut out: Vec<(PublicKey, u64)> = Vec::new();
    let mut i: usize = 0;
    while i < v.len()
        invariant
            i <= v@.len(),
            out@ == v@.take(i as int),
        decreases v@.len() - i,
    {
        out.push(v[i]);
        proof {
            assert(v@.take(i + 1 as int) =~= v@.take(i as int).push(v@[i as int]));
        }
        i += 1;
    }
    proof {
        assert(v@.take(v@.len() as int) =~= v@);
    }
    out
}

/// Equivocation and reward information carried by the terminal block of an
/// era: the validators to slash and the per-validator reward amounts.
#[derive(Clone, Debug)]
pub struct EraEnd {
    pub equivocators: Vec<PublicKey>,
    pub rewards: Vec<(PublicKey, u64)>,
}

impl EraEnd {
    /// An element-wise copy of this era-end record.
    pub fn duplicate(&self) -> (r: EraEnd)
        ensures
            r.equivocators@ == self.equivocators@,
            r.rewards@ == self.rewards@,
    {
        EraEnd {
            equivocators: copy_public_keys(&self.equivocators),
            rewards: copy_rewards(&self.rewards),
        }
    }
}

/// Whether two optional era-end records hold the same slashing and reward
/// information.
pub open spec fn era_end_like(a: Option<EraEnd>, b: Option<EraEnd>) -> bool {
    match (a, b) {
        (Option::None, Option::None) => true,
        (Option::Some(x), Option::Some(y)) => x.equivocators@ == y.equivocators@ && x.rewards@
            == y.rewards@,
        _ => false,
    }
}

/// The bytes of an optional era-end record: a tag byte, then the two
/// count-prefixed lists.
pub open spec fn era_end_bytes(e: Option<EraEnd>) -> Seq<u8> {
    match e {
        Option::None => seq![0u8],
        Option::Some(ee) => seq![1u8] + vstd::bytes::spec_u64_to_le_bytes(
            ee.equivocators@.len() as u64,
        ) + public_key_list_bytes(ee.equivocators@) + vstd::bytes::spec_u64_to_le_bytes(
            ee.rewards@.len() as u64,
        ) + reward_list_bytes(ee.rewards@),
    }
}

/// Appends an optional era-end record.
pub fn push_era_end(out: &mut Vec<u8>, e: &Option<EraEnd>)
    ensures
        final(out)@ == old(out)@ + era_end_bytes(*e),
{
    match e {
        Option::None => {
            out.push(0u8);
            proof {
                assert(final(out)@ =~= old(out)@ + era_end_bytes(*e));
            }
        },
        Option::Some(ee) => {
            out.push(1u8);
            push_public_keys(out, &ee.equivocators);
            push_rewards(out, &ee.rewards);
            proof {
                assert(out@ =~= old(out)@ + era_end_bytes(*e));
            }
        },
    }
}

/// A cryptographic hash identifying a `ProtoBlock`.
#[derive(Clone, Copy, Debug)]
pub struct ProtoBlockHash(pub Digest);

impl View for ProtoBlockHash {
    type V = Seq<u8>;

    open spec fn view(&self) -> Seq<u8> {
        self.0@
    }
}

impl ProtoBlockHash {
    /// Constructs a new `ProtoBlockHash`.
    pub fn new(hash: Digest) -> (r: ProtoBlockHash)
        ensures
            r@ == hash@,
    {
        ProtoBlockHash(hash)
    }

    /// Returns the wrapped inner hash.
    pub fn inner(&self) -> (r: &Digest)
        ensures
            r@ == self@,
    {
        &self.0
    }

    /// Byte-wise equality of two proto-block hashes.
    pub fn equals(&self, other: &ProtoBlockHash) -> (r: bool)
        ensures
            r == (self@ == other@),
    {
        self.0.equals(&other.0)
    }

    /// Returns `true` iff `self` is the hash of an empty `ProtoBlock`.
    pub fn is_empty(&self) -> (r: bool)
        ensures
            r == (self@ == blake2b256_of(proto_block_bytes(Seq::<DeployHash>::empty(), false))
                || self@ == blake2b256_of(proto_block_bytes(Seq::<DeployHash>::empty(), true))),
    {
        let empty_false = ProtoBlock::empty_random_bit_false();
        let empty_true = ProtoBlock::empty_random_bit_true();
        self.equals(&empty_false) || self.equals(&empty_true)
    }
}

impl PartialEq for ProtoBlockHash {
    fn eq(&self, other: &ProtoBlockHash) -> (r: bool) {
        self.0.equals(&other.0)
    }
}

impl Eq for ProtoBlockHash {}

impl vstd::std_specs::cmp::PartialEqSpecImpl for ProtoBlockHash {
    open spec fn obeys_eq_spec() -> bool {
        true
    }

    open spec fn eq_spec(&self, other: &ProtoBlockHash) -> bool {
        self@ == other@
    }
}

/// The framed contents of a proto block: the count-prefixed deploy list
/// followed by the random bit.
pub open spec fn proto_block_bytes(deploys: Seq<DeployHash>, random_bit: bool) -> Seq<u8> {
    vstd::bytes::spec_u64_to_le_bytes(deploys.len() as u64) + deploy_hash_list_bytes(deploys)
        + seq![bool_byte(random_bit)]
}

/// An unordered proposal candidate: a list of deploy hashes plus a random bit
/// (seed material for a future era), content-addressed by the hash of its own
/// framed contents. Immutable once constructed.
#[derive(Clone, Debug)]
pub struct ProtoBlock {
    pub hash: ProtoBlockHash,
    pub deploys: Vec<DeployHash>,
    pub random_bit: bool,
}

impl ProtoBlock {
    /// Constructs a proto block and content-addresses it.
    pub fn new(deploys: Vec<DeployHash>, random_bit: bool) -> (r: ProtoBlock)
        ensures
            r.deploys == deploys,
            r.random_bit == random_bit,
            r.hash@ == blake2b256_of(proto_block_bytes(deploys@, random_bit)),
    {
        let mut bytes: Vec<u8> = Vec::new();
        push_deploy_hashes(&mut bytes, &deploys);
        push_bool(&mut bytes, random_bit);
        proof {
            assert(bytes@ =~= proto_block_bytes(deploys@, random_bit));
        }
        let hash = ProtoBlockHash(hash_bytes(bytes.as_slice()));
        ProtoBlock { hash, deploys, random_bit }
    }

    /// The content address of this proto block.
    pub fn hash(&self) -> (r: &ProtoBlockHash)
        ensures
            *r == self.hash,
    {
        &self.hash
    }

    /// The list of deploy hashes included in the block.
    pub fn deploys(&self) -> (r: &Vec<DeployHash>)
        ensures
            *r == self.deploys,
    {
        &self.deploys
    }

    /// A random bit needed for initializing a future era.
    pub fn random_bit(&self) -> (r: bool)
        ensures
            r == self.random_bit,
    {
        self.random_bit
    }

    /// Takes the proto block apart into its three parts.
    pub fn destructure(self) -> (r: (ProtoBlockHash, Vec<DeployHash>, bool))
        ensures
            r.0 == self.hash,
            r.1 == self.deploys,
            r.2 == self.random_bit,
    {
        (self.hash, self.deploys, self.random_bit)
    }

    /// An element-wise copy of this proto block.
    pub fn duplicate(&self) -> (r: ProtoBlock)
        ensures
            r.hash == self.hash,
            r.deploys@ == self.deploys@,
            r.random_bit == self.random_bit,
    {
        ProtoBlock {
            hash: self.hash,
            deploys: copy_deploy_hashes(&self.deploys),
            random_bit: self.random_bit,
        }
    }

    /// Returns the hash of the empty proto block (no deploys) whose random
    /// bit is false. Kept here so that it always agrees with how the hash is
    /// calculated.
    pub fn empty_random_bit_false() -> (r: ProtoBlockHash)
        ensures
            r@ == blake2b256_of(proto_block_bytes(Seq::<DeployHash>::empty(), false)),
    {
        let empty = ProtoBlock::new(Vec::new(), false);
        empty.hash
    }

    /// Returns the hash of the empty proto block (no deploys) whose random
    /// bit is true. Kept here so that it always agrees with how the hash is
    /// calculated.
    pub fn empty_random_bit_true() -> (r: ProtoBlockHash)
        ensures
            r@ == blake2b256_of(proto_block_bytes(Seq::<DeployHash>::empty(), true)),
    {
        let empty = ProtoBlock::new(Vec::new(), true);
        empty.hash
    }
}

/// The consensus-agreed output for one chain position: a proto block together
/// with its wall-clock timestamp, era, chain height, proposer, and — on the
/// last block of an era only — the era-end record.
#[derive(Clone, Debug)]
pub struct FinalizedBlock {
    pub proto_block: ProtoBlock,
    pub timestamp: Timestamp,
    pub era_end: Option<EraEnd>,
    pub era_id: EraId,
    pub height: u64,
    pub proposer: PublicKey,
}

impl FinalizedBlock {
    /// Constructs a finalized block from its parts.
    pub fn new(
        proto_block: ProtoBlock,
        timestamp: Timestamp,
        era_end: Option<EraEnd>,
        era_id: EraId,
        height: u64,
        proposer: PublicKey,
    ) -> (r: FinalizedBlock)
        ensures
            r.proto_block == proto_block,
            r.timestamp == timestamp,
            r.era_end == era_end,
            r.era_id == era_id,
            r.height == height,
            r.proposer == proposer,
    {
        FinalizedBlock { proto_block, timestamp, era_end, era_id, height, proposer }
    }

    /// The finalized proto block.
    pub fn proto_block(&self) -> (r: &ProtoBlock)
        ensures
            *r == self.proto_block,
    {
        &self.proto_block
    }

    /// The timestamp from when the proto block was proposed.
    pub fn timestamp(&self) -> (r: Timestamp)
        ensures
            r == self.timestamp,
    {
        self.timestamp
    }

    /// Returns slashing and reward information if this is a switch block,
    /// i.e. the last block of its era.
    pub fn era_end(&self) -> (r: &Option<EraEnd>)
        ensures
            *r == self.era_end,
    {
        &self.era_end
    }

    /// Returns the identifier of the era this block belongs to.
    pub fn era_id(&self) -> (r: EraId)
        ensures
            r == self.era_id,
    {
        self.era_id
    }

    /// Returns the height of this block.
    pub fn height(&self) -> (r: u64)
        ensures
            r == self.height,
    {
        self.height
    }

    /// Returns true iff this block is the child of genesis: era 0, height 0.
    pub fn is_genesis_child(&self) -> (r: bool)
        ensures
            r == (self.era_id.0 == 0 && self.height == 0),
    {
        self.era_id == EraId(0) && self.height == 0
    }

    /// An element-wise copy of this finalized block.
    pub fn duplicate(&self) -> (r: FinalizedBlock)
        ensures
            finalized_block_like(r, *self),
    {
        let era_end: Option<EraEnd> = match &self.era_end {
            Option::None => Option::None,
            Option::Some(ee) => Option::Some(ee.duplicate()),
        };
        FinalizedBlock {
            proto_block: self.proto_block.duplicate(),
            timestamp: self.timestamp,
            era_end,
            era_id: self.era_id,
            height: self.height,
            proposer: self.proposer,
        }
    }
}

/// Whether two finalized blocks hold the same contents.
pub open spec fn finalized_block_like(a: FinalizedBlock, b: FinalizedBlock) -> bool {
    &&& a.proto_block.hash == b.proto_block.hash
    &&& a.proto_block.deploys@ == b.proto_block.deploys@
    &&& a.proto_block.random_bit == b.proto_block.random_bit
    &&& a.timestamp == b.timestamp
    &&& era_end_like(a.era_end, b.era_end)
    &&& a.era_id == b.era_id
    &&& a.height == b.height
    &&& a.proposer@ == b.proposer@
}

/// A cryptographic hash identifying a `Block`.
#[derive(Clone, Copy, Debug)]
pub struct BlockHash(pub Digest);

impl View for BlockHash {
    type V = Seq<u8>;

    open spec fn view(&self) -> Seq<u8> {
        self.0@
    }
}

impl BlockHash {
    /// Constructs a new `BlockHash`.
    pub fn new(hash: Digest) -> (r: BlockHash)
        ensures
            r@ == hash@,
    {
        BlockHash(hash)
    }

    /// Returns the wrapped inner hash.
    pub fn inner(&self) -> (r: &Digest)
        ensures
            r@ == self@,
    {
        &self.0
    }

    /// Byte-wise equality of two block hashes.
    pub fn equals(&self, other: &BlockHash) -> (r: bool)
        ensures
            r == (self@ == other@),
    {
        self.0.equals(&other.0)
    }
}

impl PartialEq for BlockHash {
    fn eq(&self, other: &BlockHash) -> (r: bool) {
        self.0.equals(&other.0)
    }
}

impl Eq for BlockHash {}

impl vstd::std_specs::cmp::PartialEqSpecImpl for BlockHash {
    open spec fn obeys_eq_spec() -> bool {
        true
    }

    open spec fn eq_spec(&self, other: &BlockHash) -> bool {
        self@ == other@
    }
}

/// The framed contents of a block header, over which its identifying hash is
/// computed.
pub open spec fn header_bytes(h: BlockHeader) -> Seq<u8> {
    h.parent_hash@ + h.global_state_hash@ + h.body_hash@ + vstd::bytes::spec_u64_to_le_bytes(
        h.deploy_hashes@.len() as u64,
    ) + deploy_hash_list_bytes(h.deploy_hashes@) + seq![bool_byte(h.random_bit)] + era_end_bytes(
        h.era_end,
    ) + vstd::bytes::spec_u64_to_le_bytes(h.timestamp@) + vstd::bytes::spec_u64_to_le_bytes(
        h.era_id.0,
    ) + vstd::bytes::spec_u64_to_le_bytes(h.height) + h.proposer@
}

/// The header portion of a `Block`.
#[derive(Clone, Debug)]
pub struct BlockHeader {
    pub parent_hash: BlockHash,
    pub global_state_hash: Digest,
    pub body_hash: Digest,
    pub deploy_hashes: Vec<DeployHash>,
    pub random_bit: bool,
    pub era_end: Option<EraEnd>,
    pub timestamp: Timestamp,
    pub era_id: EraId,
    pub height: u64,
    pub proposer: PublicKey,
}

impl BlockHeader {
    /// The parent block's hash.
    pub fn parent_hash(&self) -> (r: &BlockHash)
        ensures
            *r == self.parent_hash,
    {
        &self.parent_hash
    }

    /// The root hash of the resulting global state.
    pub fn global_state_hash(&self) -> (r: &Digest)
        ensures
            *r == self.global_state_hash,
    {
        &self.global_state_hash
    }

    /// The hash of the block's body.
    pub fn body_hash(&self) -> (r: &Digest)
        ensures
            *r == self.body_hash,
    {
        &self.body_hash
    }

    /// The list of deploy hashes included in the block.
    pub fn deploy_hashes(&self) -> (r: &Vec<DeployHash>)
        ensures
            *r == self.deploy_hashes,
    {
        &self.deploy_hashes
    }

    /// A random bit needed for initializing a future era.
    pub fn random_bit(&self) -> (r: bool)
        ensures
            r == self.random_bit,
    {
        self.random_bit
    }

    /// The timestamp from when the proto block was proposed.
    pub fn timestamp(&self) -> (r: Timestamp)
        ensures
            r == self.timestamp,
    {
        self.timestamp
    }

    /// Returns reward and slashing information if this is the era's last
    /// block.
    pub fn era_end(&self) -> (r: &Option<EraEnd>)
        ensures
            *r == self.era_end,
    {
        &self.era_end
    }

    /// Returns `true` iff this block is the last one of its era.
    pub fn switch_block(&self) -> (r: bool)
        ensures
            r == self.era_end is Some,
    {
        self.era_end.is_some()
    }

    /// The era in which this block was created.
    pub fn era_id(&self) -> (r: EraId)
        ensures
            r == self.era_id,
    {
        self.era_id
    }

    /// Returns the height of this block, i.e. the number of ancestors.
    pub fn height(&self) -> (r: u64)
        ensures
            r == self.height,
    {
        self.height
    }

    /// The block's proposer.
    pub fn proposer(&self) -> (r: &PublicKey)
        ensures
            *r == self.proposer,
    {
        &self.proposer
    }

    /// Returns true iff this block is the child of genesis: era 0, height 0.
    pub fn is_genesis_child(&self) -> (r: bool)
        ensures
            r == (self.era_id.0 == 0 && self.height == 0),
    {
        self.era_id == EraId(0) && self.height == 0
    }

    /// The identifying hash of this header.
    pub fn hash(&self) -> (r: BlockHash)
        ensures
            r@ == blake2b256_of(header_bytes(*self)),
    {
        let mut bytes: Vec<u8> = Vec::new();
        push_digest(&mut bytes, &self.parent_hash.0);
        push_digest(&mut bytes, &self.global_state_hash);
        push_digest(&mut bytes, &self.body_hash);
        push_deploy_hashes(&mut bytes, &self.deploy_hashes);
        push_bool(&mut bytes, self.random_bit);
        push_era_end(&mut bytes, &self.era_end);
        push_u64_le(&mut bytes, self.timestamp.millis());
        push_u64_le(&mut bytes, self.era_id.0);
        push_u64_le(&mut bytes, self.height);
        push_public_key(&mut bytes, &self.proposer);
        proof {
            assert(bytes@ =~= header_bytes(*self));
        }
        BlockHash(hash_bytes(bytes.as_slice()))
    }
}

/// A proto block after execution, with the resulting post-state hash: one
/// link of the hash-chained linear chain. Signatures over the block hash are
/// appended afterwards and do not affect the block's identity.
#[derive(Clone, Debug)]
pub struct Block {
    pub hash: BlockHash,
    pub header: BlockHeader,
    pub proofs: Vec<Signature>,
}

impl Block {
    /// Constructs an executed block from a finalized block, the parent
    /// block's hash and the post-execution global-state hash, and
    /// content-addresses it by its header.
    pub fn new(parent_hash: BlockHash, global_state_hash: Digest, finalized_block: FinalizedBlock)
        -> (r: Block)
        ensures
            r.header.parent_hash == parent_hash,
            r.header.global_state_hash == global_state_hash,
            r.header.body_hash@ == blake2b256_of(Seq::<u8>::empty()),
            r.header.deploy_hashes == finalized_block.proto_block.deploys,
            r.header.random_bit == finalized_block.proto_block.random_bit,
            r.header.era_end == finalized_block.era_end,
            r.header.timestamp == finalized_block.timestamp,
            r.header.era_id == finalized_block.era_id,
            r.header.height == finalized_block.height,
            r.header.proposer == finalized_block.proposer,
            r.hash@ == blake2b256_of(header_bytes(r.header)),
            r.proofs@ == Seq::<Signature>::empty(),
    {
        let body_bytes: Vec<u8> = Vec::new();
        let body_hash = hash_bytes(body_bytes.as_slice());
        let header = BlockHeader {
            parent_hash,
            global_state_hash,
            body_hash,
            deploy_hashes: finalized_block.proto_block.deploys,
            random_bit: finalized_block.proto_block.random_bit,
            era_end: finalized_block.era_end,
            timestamp: finalized_block.timestamp,
            era_id: finalized_block.era_id,
            height: finalized_block.height,
            proposer: finalized_block.proposer,
        };
        let hash = header.hash();
        Block { hash, header, proofs: Vec::new() }
    }

    /// The block's header.
    pub fn header(&self) -> (r: &BlockHeader)
        ensures
            *r == self.header,
    {
        &self.header
    }

    /// Takes the block apart, keeping only its header.
    pub fn take_header(self) -> (r: BlockHeader)
        ensures
            r == self.header,
    {
        self.header
    }

    /// The block's identifying hash.
    pub fn hash(&self) -> (r: &BlockHash)
        ensures
            *r == self.hash,
    {
        &self.hash
    }

    /// The root hash of the global state after this block executed.
    pub fn global_state_hash(&self) -> (r: &Digest)
        ensures
            *r == self.header.global_state_hash,
    {
        &self.header.global_state_hash
    }

    /// The deploy hashes included in this block.
    pub fn deploy_hashes(&self) -> (r: &Vec<DeployHash>)
        ensures
            *r == self.header.deploy_hashes,
    {
        &self.header.deploy_hashes
    }

    /// The height of this block.
    pub fn height(&self) -> (r: u64)
        ensures
            r == self.header.height,
    {
        self.header.height
    }

    /// Appends the given signature to this block's proofs. It should have
    /// been validated beforehand; the block's identifying hash is unchanged.
    pub fn append_proof(&mut self, proof: Signature)
        ensures
            final(self).proofs@ == old(self).proofs@.push(proof),
            final(self).hash == old(self).hash,
            final(self).header == old(self).header,
    {
        self.proofs.push(proof)
    }
}

/// Access to the deploys of any block-like type: a proposal candidate, an
/// executed block, or a bare header.
pub trait BlockLike {
    /// The deploy hashes this block carries.
    fn deploys(&self) -> &Vec<DeployHash>;
}

impl BlockLike for ProtoBlock {
    fn deploys(&self) -> &Vec<DeployHash> {
        &self.deploys
    }
}

impl BlockLike for Block {
    fn deploys(&self) -> &Vec<DeployHash> {
        &self.header.deploy_hashes
    }
}

impl BlockLike for BlockHeader {
    fn deploys(&self) -> &Vec<DeployHash> {
        &self.deploy_hashes
    }
}

/// A block looked up by height in the linear chain: either the block, or a
/// record that the chain holds no block at that height yet.
#[derive(Clone, Debug)]
pub enum BlockByHeight {
    Absent(u64),
    Block(Box<Block>),
}

impl BlockByHeight {
    /// Wraps a block for fetching by height.
    pub fn new(block: Block) -> (r: BlockByHeight)
        ensures
            r matches BlockByHeight::Block(b) && *b == block,
    {
        BlockByHeight::Block(Box::new(block))
    }

    /// The height this entry speaks of.
    pub fn height(&self) -> (r: u64)
        ensures
            r == match self {
                BlockByHeight::Absent(h) => *h,
                BlockByHeight::Block(b) => b.header.height,
            },
    {
        match self {
            BlockByHeight::Absent(height) => *height,
            BlockByHeight::Block(block) => block.height(),
        }
    }
}

} // verus!
