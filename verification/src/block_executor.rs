//! The deterministic execute-commit pipeline: consumes consensus-finalized
//! blocks in causal (height) order, executes their deploys sequentially
//! against chained global-state hashes, runs end-of-era processing, and
//! materializes each result as an immutable executed block.
//!
//! Blocks are announced strictly in height order even though requests may
//! arrive out of order: a block whose parent has not finished executing waits
//! in the exec queue and is resumed exactly once, when the parent's
//! post-state hash becomes known.

use std::collections::HashMap;

use vstd::prelude::*;

use crate::block::{Block, BlockHash, Deploy, DeployHash, FinalizedBlock};
use crate::hashing::{blake2b256_of, Digest};
use crate::keys::PublicKey;

verus! {

/// The fault returned by the execution engine when the state root a request
/// named does not exist.
#[derive(Clone, Copy, Debug)]
pub struct RootNotFound(pub Digest);

impl RootNotFound {
    /// Wraps the root that was not found.
    pub fn new(hash: Digest) -> (r: RootNotFound)
        ensures
            r.0 == hash,
    {
        RootNotFound(hash)
    }

    /// The missing root's bytes.
    pub fn to_vec(&self) -> (r: Vec<u8>)
        ensures
            r@ == self.0@,
    {
        let mut out: Vec<u8> = Vec::new();
        crate::encoding::push_digest(&mut out, &self.0);
        out
    }
}

/// The outcome of executing one deploy, as the engine reports it: whether it
/// succeeded, what it cost, and the opaque effects to commit either way.
#[derive(Clone, Debug)]
pub struct DeployExecutionOutcome {
    pub success: bool,
    pub cost: u64,
    pub effect: Vec<u8>,
}

/// The per-deploy record kept and announced with the executed block.
#[derive(Clone, Copy, Debug, PartialEq, Eq, Structural)]
pub struct ExecutionResult {
    pub success: bool,
    pub cost: u64,
}

/// What the engine reports for a commit of execution effects.
#[derive(Clone, Copy, Debug)]
pub enum CommitResult {
    /// The effects were applied; the new state root.
    Success { state_root: Digest },
    /// A transform did not match the type of the value it applies to.
    TypeMismatch,
    /// A transform named a key that does not exist.
    KeyNotFound,
    /// The pre-state root does not exist.
    RootNotFound,
    /// The effects could not be deserialized.
    SerializationFault,
}

/// What the engine reports for an end-of-era step.
#[derive(Clone, Copy, Debug)]
pub enum StepResult {
    /// The step ran; the new state root.
    Success { post_state_hash: Digest },
    /// The step failed.
    Failure,
}

/// One reward entry of an end-of-era step request.
#[derive(Clone, Copy, Debug)]
pub struct RewardItem {
    pub validator_id: PublicKey,
    pub value: u64,
}

/// One slash entry of an end-of-era step request.
#[derive(Clone, Copy, Debug)]
pub struct SlashItem {
    pub validator_id: PublicKey,
}

/// The end-of-era step request: rewards, slashes, and the auction run,
/// applied to the given pre-state.
#[derive(Clone, Debug)]
pub struct StepRequest {
    pub pre_state_hash: Digest,
    pub reward_items: Vec<RewardItem>,
    pub slash_items: Vec<SlashItem>,
    pub run_auction: bool,
}

/// The state of one in-flight execute-commit cycle: the finalized block being
/// processed, the deploys still to execute, the per-deploy results so far,
/// and the current pre-state hash, updated after every commit.
pub struct State {
    /// The finalized block being executed.
    pub finalized_block: FinalizedBlock,
    /// Deploys which have still to be executed.
    pub remaining_deploys: Vec<Deploy>,
    /// The results of the deploys executed so far, in execution order.
    pub execution_results: Vec<(DeployHash, ExecutionResult)>,
    /// The current pre-state hash of global storage. Initialized with the
    /// parent block's post-state hash; updated after each commit.
    pub pre_state_hash: Digest,
    /// The pre-state hash this cycle started from: the parent block's
    /// post-state hash, or the genesis post-state hash at height zero.
    pub initial_pre_state_hash: Ghost<Seq<u8>>,
}

/// What is remembered of an executed block so that its child, or an era
/// transition, can resolve its hash and post-state without re-reading the
/// block.
#[derive(Clone, Copy, Debug)]
pub struct ExecutedBlockSummary {
    pub hash: BlockHash,
    pub post_state_hash: Digest,
}

/// A finalized block waiting in the exec queue for its parent to finish
/// executing, together with its already-fetched deploys.
pub struct QueuedBlock {
    pub finalized_block: FinalizedBlock,
    pub deploys: Vec<Deploy>,
}

/// The ghost record of one executed-block announcement: the height, the
/// pre-state the block started from, the post-state it committed to, and its
/// identifying hash.
pub ghost struct AnnouncedBlock {
    pub height: u64,
    pub pre_state: Seq<u8>,
    pub post_state: Seq<u8>,
    pub block_hash: Seq<u8>,
}

/// An event the block executor reacts to: the request to execute a block, or
/// the response to one of its own effects.
pub enum Event {
    /// A request to execute a finalized block.
    Request(FinalizedBlock),
    /// The deploys of a finalized block, as fetched from storage. A missing
    /// deploy is a storage-contract violation and fatal.
    GetDeploysResult { finalized_block: FinalizedBlock, deploys: Vec<Option<Deploy>> },
    /// The result of executing a single deploy.
    DeployExecutionResult {
        state: Box<State>,
        deploy_hash: DeployHash,
        result: Result<Vec<DeployExecutionOutcome>, RootNotFound>,
    },
    /// The result of committing a single set of execution effects.
    CommitExecutionEffects { state: Box<State>, commit_result: CommitResult },
    /// The result of running the end-of-era step.
    RunStepResult { state: Box<State>, result: StepResult },
}

/// An effect the block executor asks its caller to perform. Each of the first
/// four is answered by the corresponding event.
pub enum Effect {
    /// Fetch the deploys the block references from storage, in order.
    FetchDeploys { finalized_block: FinalizedBlock },
    /// Execute the deploy against `state.pre_state_hash` at the block's
    /// timestamp.
    RequestExecution { state: Box<State>, deploy: Deploy },
    /// Commit the execution effects against `state.pre_state_hash`.
    RequestCommit { state: Box<State>, effect: Vec<u8> },
    /// Run the end-of-era step.
    RunStep { state: Box<State>, step_request: StepRequest },
    /// Announce the executed block together with its per-deploy results.
    AnnounceBlock { block: Block, execution_results: Vec<(DeployHash, ExecutionResult)> },
}

/// The most finalized blocks the exec queue buffers while their parents
/// execute. Out-of-order arrivals beyond this depth point at a broken
/// upstream rather than ordinary reordering slack.
pub const MAX_EXEC_QUEUE_DEPTH: usize = 1024;

/// An execution-integrity fault. Fatal by design, never retried: the
/// correctness of the replicated state machine depends on every validator
/// deriving an identical state root from identical inputs, and masking such
/// a fault risks silent divergence.
#[derive(Clone, Copy, Debug, PartialEq, Eq, Structural)]
pub enum ExecutorFault {
    /// A finalized block references a deploy the durable store does not hold.
    MissingDeploy { era_id: u64, height: u64 },
    /// Execution reported that the pre-state root does not exist.
    ExecutionRootNotFound,
    /// Execution reported other than exactly one result for one deploy.
    WrongExecutionResultCount,
    /// A commit did not succeed.
    CommitFailed,
    /// The end-of-era step did not succeed.
    StepFailed,
    /// The parent's summary vanished between starting and finishing a block.
    MissingParentSummary { height: u64 },
    /// More blocks wait for their parents than the exec queue may buffer.
    ExecQueueFull { height: u64 },
}

/// The executed-block announcements are contiguous from height 0, in order,
/// and each block's pre-state is its predecessor's post-state (the genesis
/// post-state at height 0).
pub open spec fn chained(genesis: Seq<u8>, announced: Seq<AnnouncedBlock>) -> bool {
    &&& forall|i: int| 0 <= i < announced.len() ==> (#[trigger] announced[i]).height as int == i
    &&& forall|i: int|
        0 <= i < announced.len() ==> (#[trigger] announced[i]).pre_state == if i == 0 {
            genesis
        } else {
            announced[i - 1].post_state
        }
}

/// The block executor: the genesis post-state hash, the parent-summary map,
/// the exec queue, and the ghost trace of announced blocks.
pub struct BlockExecutor {
    /// The post-state hash produced by genesis.
    pub genesis_post_state_hash: Digest,
    /// A mapping from height to the executed block's hash and post-state
    /// hash, kept so a child block, or an era transition, can resolve its
    /// parent's state root. An entry is consumed when the child executes.
    pub parent_map: HashMap<u64, ExecutedBlockSummary>,
    /// Finalized blocks waiting for their parent's post-state hash.
    pub exec_queue: HashMap<u64, QueuedBlock>,
    /// The trace of executed-block announcements, in announcement order.
    pub announced: Ghost<Seq<AnnouncedBlock>>,
}

impl BlockExecutor {
    /// The pre-state the next block (at the next height) must start from.
    pub open spec fn expected_pre(&self) -> Seq<u8> {
        if self.announced@.len() == 0 {
            self.genesis_post_state_hash@
        } else {
            self.announced@.last().post_state
        }
    }

    /// The parent-summary map holds exactly the last announced block.
    pub open spec fn tip_ok(&self) -> bool {
        if self.announced@.len() == 0 {
            forall|k: u64| !self.parent_map@.contains_key(k)
        } else {
            let last = self.announced@.last();
            &&& self.parent_map@.contains_key(last.height)
            &&& forall|k: u64| self.parent_map@.contains_key(k) ==> k == last.height
            &&& self.parent_map@[last.height].hash@ == last.block_hash
            &&& self.parent_map@[last.height].post_state_hash@ == last.post_state
        }
    }

    /// Every queued block waits at a height strictly beyond the next one to
    /// be announced, under its own height as the key.
    pub open spec fn queue_ok(&self) -> bool {
        forall|k: u64|
            #[trigger] self.exec_queue@.contains_key(k) ==> k as int > self.announced@.len()
                && self.exec_queue@[k].finalized_block.height == k
    }

    /// The executor's invariant, as established by `new` and preserved by
    /// every event handled under the data model's delivery discipline (each
    /// height delivered once; responses carry the state the executor issued).
    pub open spec fn wf(&self) -> bool {
        &&& chained(self.genesis_post_state_hash@, self.announced@)
        &&& self.tip_ok()
        &&& self.queue_ok()
    }

    /// Whether an in-flight cycle is the legitimate continuation of this
    /// executor: it executes the next height to be announced, starting from
    /// the post-state of the block before it.
    pub open spec fn in_flight_ok(&self, state: State) -> bool {
        &&& state.finalized_block.height as int == self.announced@.len()
        &&& state.initial_pre_state_hash@ == self.expected_pre()
        &&& state.finalized_block.height == 0 ==> state.finalized_block.era_id.0 == 0
    }

    /// Whether an event may be handed to the executor: a block request names
    /// a height not yet announced and not already queued (heights are unique
    /// and strictly increasing per chain), a genesis-position block belongs
    /// to era 0, and a response carries the state the executor issued.
    pub open spec fn event_admissible(&self, event: Event) -> bool {
        match event {
            Event::Request(fb) => {
                &&& fb.height as int >= self.announced@.len()
                &&& !self.exec_queue@.contains_key(fb.height)
                &&& fb.height == 0 ==> fb.era_id.0 == 0
            },
            Event::GetDeploysResult { finalized_block, .. } => {
                &&& finalized_block.height as int >= self.announced@.len()
                &&& !self.exec_queue@.contains_key(finalized_block.height)
                &&& finalized_block.height == 0 ==> finalized_block.era_id.0 == 0
            },
            Event::DeployExecutionResult { state, .. } => self.in_flight_ok(*state),
            Event::CommitExecutionEffects { state, .. } => self.in_flight_ok(*state),
            Event::RunStepResult { state, .. } => self.in_flight_ok(*state),
        }
    }

    /// Creates a block executor over the given genesis post-state hash.
    pub fn new(genesis_post_state_hash: Digest) -> (r: BlockExecutor)
        ensures
            r.genesis_post_state_hash == genesis_post_state_hash,
            r.parent_map@ == Map::<u64, ExecutedBlockSummary>::empty(),
            r.exec_queue@ == Map::<u64, QueuedBlock>::empty(),
            r.announced@ == Seq::<AnnouncedBlock>::empty(),
            r.wf(),
    {
        BlockExecutor {
            genesis_post_state_hash,
            parent_map: HashMap::new(),
            exec_queue: HashMap::new(),
            announced: Ghost(Seq::empty()),
        }
    }

    /// Seeds the parent-summary map from an already-executed linear chain,
    /// for a node that restarts with existing blocks. Later entries of the
    /// chain win where heights repeat.
    pub fn with_parent_map(self, linear_chain: Vec<Block>) -> (r: BlockExecutor)
        ensures
            r.genesis_post_state_hash == self.genesis_post_state_hash,
            r.exec_queue@ == self.exec_queue@,
            r.announced@ == self.announced@,
            r.parent_map@ == parent_map_of(linear_chain@),
    {
        let mut executor = self;
        executor.parent_map = HashMap::new();
        let mut i: usize = 0;
        while i < linear_chain.len()
            invariant
                i <= linear_chain@.len(),
                executor.parent_map@ == parent_map_of(linear_chain@.take(i as int)),
                executor.genesis_post_state_hash == self.genesis_post_state_hash,
                executor.exec_queue@ == self.exec_queue@,
                executor.announced@ == self.announced@,
            decreases linear_chain@.len() - i,
        {
            let block = &linear_chain[i];
            let summary = ExecutedBlockSummary {
                hash: *block.hash(),
                post_state_hash: *block.global_state_hash(),
            };
            executor.parent_map.insert(block.height(), summary);
            proof {
                assert(linear_chain@.take(i + 1 as int).drop_last() =~= linear_chain@.take(
                    i as int,
                ));
            }
            i += 1;
        }
        proof {
            assert(linear_chain@.take(linear_chain@.len() as int) =~= linear_chain@);
        }
        executor
    }
}

/// The parent-summary map a linear chain seeds: each block's hash and
/// post-state under its height, later blocks winning where heights repeat.
pub open spec fn parent_map_of(blocks: Seq<Block>) -> Map<u64, ExecutedBlockSummary>
    decreases blocks.len(),
{
    if blocks.len() == 0 {
        Map::empty()
    } else {
        parent_map_of(blocks.drop_last()).insert(
            blocks.last().header.height,
            ExecutedBlockSummary {
                hash: blocks.last().hash,
                post_state_hash: blocks.last().header.global_state_hash,
            },
        )
    }
}

/// Builds the reward items of a step request from an era-end record.
pub fn build_reward_items(rewards: &Vec<(PublicKey, u64)>) -> (r: Vec<RewardItem>)
    ensures
        r@.len() == rewards@.len(),
        forall|i: int|
            0 <= i < rewards@.len() ==> (#[trigger] r@[i]).validator_id == rewards@[i].0
                && r@[i].value == rewards@[i].1,
{
    let mut out: Vec<RewardItem> = Vec::new();
    let mut i: usize = 0;
    while i < rewards.len()
        invariant
            i <= rewards@.len(),
            out@.len() == i,
            forall|j: int|
                0 <= j < i ==> (#[trigger] out@[j]).validator_id == rewards@[j].0 && out@[j].value
                    == rewards@[j].1,
        decreases rewards@.len() - i,
    {
        out.push(RewardItem { validator_id: rewards[i].0, value: rewards[i].1 });
        i += 1;
    }
    out
}

/// Builds the slash items of a step request from an era-end record.
pub fn build_slash_items(equivocators: &Vec<PublicKey>) -> (r: Vec<SlashItem>)
    ensures
        r@.len() == equivocators@.len(),
        forall|i: int|
            0 <= i < equivocators@.len() ==> (#[trigger] r@[i]).validator_id == equivocators@[i],
{
    let mut out: Vec<SlashItem> = Vec::new();
    let mut i: usize = 0;
    while i < equivocators.len()
        invariant
            i <= equivocators@.len(),
            out@.len() == i,
            forall|j: int| 0 <= j < i ==> (#[trigger] out@[j]).validator_id == equivocators@[j],
        decreases equivocators@.len() - i,
    {
        out.push(SlashItem { validator_id: equivocators[i] });
        i += 1;
    }
    out
}

impl BlockExecutor {
    /// Starts executing a finalized block whose deploys have been resolved,
    /// or queues it if its parent has not finished executing.
    ///
    /// A block at the next height starts at once: the genesis child starts
    /// from the genesis post-state hash, any other block from its parent's
    /// post-state hash in the parent-summary map. A block further ahead waits
    /// in the exec queue until its parent completes.
    pub fn handle_get_deploys_result(
        &mut self,
        finalized_block: FinalizedBlock,
        deploys: Vec<Deploy>,
    ) -> (r: Result<Vec<Effect>, ExecutorFault>)
        requires
            old(self).wf(),
            finalized_block.height as int >= old(self).announced@.len(),
            !old(self).exec_queue@.contains_key(finalized_block.height),
            finalized_block.height == 0 ==> finalized_block.era_id.0 == 0,
        ensures
            final(self).wf(),
            final(self).genesis_post_state_hash == old(self).genesis_post_state_hash,
            old(self).announced@.is_prefix_of(final(self).announced@),
            r is Err <==> (finalized_block.height as int > old(self).announced@.len() && old(
                self,
            ).exec_queue@.len() >= MAX_EXEC_QUEUE_DEPTH as int),
            r is Err ==> r == Result::<Vec<Effect>, ExecutorFault>::Err(
                ExecutorFault::ExecQueueFull { height: finalized_block.height },
            ) && final(self).announced@ == old(self).announced@ && final(self).parent_map@ == old(
                self,
            ).parent_map@ && final(self).exec_queue@ == old(self).exec_queue@,
            finalized_block.height as int > old(self).announced@.len() && old(
                self,
            ).exec_queue@.len() < MAX_EXEC_QUEUE_DEPTH as int ==> {
                &&& r matches Ok(e) && e@.len() == 0
                &&& final(self).announced@ == old(self).announced@
                &&& final(self).parent_map@ == old(self).parent_map@
                &&& final(self).exec_queue@ == old(self).exec_queue@.insert(
                    finalized_block.height,
                    final(self).exec_queue@[finalized_block.height],
                )
                &&& final(self).exec_queue@[finalized_block.height].finalized_block
                    == finalized_block
                &&& final(self).exec_queue@[finalized_block.height].deploys == deploys
            },
            finalized_block.height as int == old(self).announced@.len() && deploys@.len() > 0
                ==> {
                &&& final(self).announced@ == old(self).announced@
                &&& final(self).parent_map@ == old(self).parent_map@
                &&& final(self).exec_queue@ == old(self).exec_queue@
                &&& r matches Ok(e) && e@.len() == 1 && (e@[0] matches Effect::RequestExecution {
                    state,
                    deploy,
                } && deploy == deploys@[0] && state.finalized_block == finalized_block
                    && state.remaining_deploys@ == deploys@.remove(0)
                    && state.execution_results@.len() == 0 && state.pre_state_hash@ == old(self).expected_pre() && final(self).in_flight_ok(*state))
            },
            finalized_block.height as int == old(self).announced@.len() && deploys@.len() == 0
                && finalized_block.era_end is Some ==> {
                &&& final(self).announced@ == old(self).announced@
                &&& final(self).parent_map@ == old(self).parent_map@
                &&& final(self).exec_queue@ == old(self).exec_queue@
                &&& r matches Ok(e) && e@.len() == 1 && (e@[0] matches Effect::RunStep {
                    state,
                    step_request,
                } && state.finalized_block == finalized_block && state.remaining_deploys@.len()
                    == 0 && state.execution_results@.len() == 0 && state.pre_state_hash@ == old(self).expected_pre() && final(self).in_flight_ok(*state)
                    && step_request.pre_state_hash@ == old(self).expected_pre()
                    && step_request.run_auction == true && (
                finalized_block.era_end matches Some(ee) && step_request.reward_items@.len()
                    == ee.rewards@.len() && (forall|i: int|
                    0 <= i < ee.rewards@.len() ==> (#[trigger] step_request.reward_items@[i]).validator_id
                        == ee.rewards@[i].0 && step_request.reward_items@[i].value
                        == ee.rewards@[i].1) && step_request.slash_items@.len()
                    == ee.equivocators@.len() && (forall|i: int|
                    0 <= i < ee.equivocators@.len() ==> (#[trigger] step_request.slash_items@[i]).validator_id
                        == ee.equivocators@[i])))
            },
            finalized_block.height as int == old(self).announced@.len() && deploys@.len() == 0
                && finalized_block.era_end is None ==> {
                &&& final(self).announced@.len() > old(self).announced@.len()
                &&& final(self).announced@[old(self).announced@.len() as int].height
                    == finalized_block.height
                &&& final(self).announced@[old(self).announced@.len() as int].pre_state == old(self).expected_pre()
                &&& final(self).announced@[old(self).announced@.len() as int].post_state == old(self).expected_pre()
                &&& r matches Ok(e) && e@.len() >= 1 && (e@[0] matches Effect::AnnounceBlock {
                    block,
                    execution_results,
                } && execution_results@.len() == 0 && block.header.height == finalized_block.height
                    && block.header.era_id == finalized_block.era_id
                    && block.header.global_state_hash@ == old(self).expected_pre())
            },
        decreases old(self).exec_queue@.len(), 2int,
    {
        let height = finalized_block.height();

        // Resolve the block's pre-state hash: the genesis child starts from
        // the genesis post-state hash, everything else from its parent's
        // post-state hash, if the parent has finished executing.
        let pre_state: Option<Digest> = if finalized_block.is_genesis_child() {
            Option::Some(self.genesis_post_state_hash)
        } else {
            proof {
                // Under the delivery discipline a non-genesis block sits at a
                // positive height.
                assert(height > 0);
            }
            match self.parent_map.get(&(height - 1)) {
                Option::Some(summary) => Option::Some(summary.post_state_hash),
                Option::None => Option::None,
            }
        };

        match pre_state {
            Option::Some(pre_state_hash) => {
                let state = Box::new(
                    State {
                        finalized_block,
                        remaining_deploys: deploys,
                        execution_results: Vec::new(),
                        pre_state_hash,
                        initial_pre_state_hash: Ghost(pre_state_hash@),
                    },
                );
                self.execute_next_deploy_or_create_block(state)
            },
            Option::None => {
                // The parent has not been executed yet; wait for it, unless
                // the buffer of waiting blocks is already at its bound.
                if self.exec_queue.len() >= MAX_EXEC_QUEUE_DEPTH {
                    return Result::Err(ExecutorFault::ExecQueueFull { height });
                }
                self.exec_queue.insert(height, QueuedBlock { finalized_block, deploys });
                Result::Ok(Vec::new())
            },
        }
    }

    /// Executes the block's next deploy; when none remain, runs the
    /// end-of-era step if the block carries an era-end record, and otherwise
    /// finalizes the block.
    pub fn execute_next_deploy_or_create_block(&mut self, state: Box<State>) -> (r: Result<
        Vec<Effect>,
        ExecutorFault,
    >)
        requires
            old(self).wf(),
            old(self).in_flight_ok(*state),
        ensures
            final(self).wf(),
            final(self).genesis_post_state_hash == old(self).genesis_post_state_hash,
            old(self).announced@.is_prefix_of(final(self).announced@),
            r is Ok,
            state.remaining_deploys@.len() > 0 ==> {
                &&& final(self).announced@ == old(self).announced@
                &&& final(self).parent_map@ == old(self).parent_map@
                &&& final(self).exec_queue@ == old(self).exec_queue@
                &&& r matches Ok(e) && e@.len() == 1 && (e@[0] matches Effect::RequestExecution {
                    state: out,
                    deploy,
                } && deploy == state.remaining_deploys@[0] && out.finalized_block
                    == state.finalized_block && out.remaining_deploys@
                    == state.remaining_deploys@.remove(0) && out.execution_results@
                    == state.execution_results@ && out.pre_state_hash == state.pre_state_hash
                    && out.initial_pre_state_hash@ == state.initial_pre_state_hash@ && final(self).in_flight_ok(*out))
            },
            state.remaining_deploys@.len() == 0 && state.finalized_block.era_end is Some ==> {
                &&& final(self).announced@ == old(self).announced@
                &&& final(self).parent_map@ == old(self).parent_map@
                &&& final(self).exec_queue@ == old(self).exec_queue@
                &&& r matches Ok(e) && e@.len() == 1 && (e@[0] matches Effect::RunStep {
                    state: out,
                    step_request,
                } && out.finalized_block == state.finalized_block && out.remaining_deploys@
                    == state.remaining_deploys@ && out.execution_results@
                    == state.execution_results@ && out.pre_state_hash == state.pre_state_hash
                    && out.initial_pre_state_hash@ == state.initial_pre_state_hash@ && final(self).in_flight_ok(*out) && step_request.pre_state_hash == state.pre_state_hash
                    && step_request.run_auction == true && (
                state.finalized_block.era_end matches Some(ee) && step_request.reward_items@.len()
                    == ee.rewards@.len() && (forall|i: int|
                    0 <= i < ee.rewards@.len() ==> (#[trigger] step_request.reward_items@[i]).validator_id
                        == ee.rewards@[i].0 && step_request.reward_items@[i].value
                        == ee.rewards@[i].1) && step_request.slash_items@.len()
                    == ee.equivocators@.len() && (forall|i: int|
                    0 <= i < ee.equivocators@.len() ==> (#[trigger] step_request.slash_items@[i]).validator_id
                        == ee.equivocators@[i])))
            },
            state.remaining_deploys@.len() == 0 && state.finalized_block.era_end is None ==> {
                &&& final(self).announced@.len() > old(self).announced@.len()
                &&& final(self).announced@[old(self).announced@.len() as int].height
                    == state.finalized_block.height
                &&& final(self).announced@[old(self).announced@.len() as int].pre_state
                    == state.initial_pre_state_hash@
                &&& final(self).announced@[old(self).announced@.len() as int].post_state
                    == state.pre_state_hash@
                &&& r matches Ok(e) && e@.len() >= 1 && (e@[0] matches Effect::AnnounceBlock {
                    block,
                    execution_results,
                } && execution_results@ == state.execution_results@ && block.header.height
                    == state.finalized_block.height && block.header.era_id
                    == state.finalized_block.era_id && block.header.global_state_hash
                    == state.pre_state_hash)
            },
        decreases old(self).exec_queue@.len(), 1int,
    {
        let mut state = state;
        if state.remaining_deploys.len() > 0 {
            // Submit the front deploy for execution against the current
            // pre-state hash.
            let deploy = state.remaining_deploys.remove(0);
            let mut effects: Vec<Effect> = Vec::new();
            effects.push(Effect::RequestExecution { state, deploy });
            Result::Ok(effects)
        } else {
            match &state.finalized_block.era_end {
                Option::Some(era_end) => {
                    // The era's last block: slash equivocators, distribute
                    // rewards and run the auction before finalizing.
                    let reward_items = build_reward_items(&era_end.rewards);
                    let slash_items = build_slash_items(&era_end.equivocators);
                    let step_request = StepRequest {
                        pre_state_hash: state.pre_state_hash,
                        reward_items,
                        slash_items,
                        run_auction: true,
                    };
                    let mut effects: Vec<Effect> = Vec::new();
                    effects.push(Effect::RunStep { state, step_request });
                    Result::Ok(effects)
                },
                Option::None => self.finalize_block_execution(state),
            }
        }
    }

    /// Materializes the executed block, chains it to its parent, announces
    /// it, and resumes the queued child waiting at the next height, if any.
    pub fn finalize_block_execution(&mut self, state: Box<State>) -> (r: Result<
        Vec<Effect>,
        ExecutorFault,
    >)
        requires
            old(self).wf(),
            old(self).in_flight_ok(*state),
        ensures
            final(self).wf(),
            final(self).genesis_post_state_hash == old(self).genesis_post_state_hash,
            old(self).announced@.is_prefix_of(final(self).announced@),
            r is Ok,
            final(self).announced@.len() > old(self).announced@.len(),
            final(self).announced@[old(self).announced@.len() as int].height
                == state.finalized_block.height,
            final(self).announced@[old(self).announced@.len() as int].pre_state
                == state.initial_pre_state_hash@,
            final(self).announced@[old(self).announced@.len() as int].post_state
                == state.pre_state_hash@,
            r matches Ok(e) ==> e@.len() >= 1 && (e@[0] matches Effect::AnnounceBlock {
                block,
                execution_results,
            } && execution_results@ == state.execution_results@ && block.header.height
                == state.finalized_block.height && block.header.era_id
                == state.finalized_block.era_id && block.header.timestamp
                == state.finalized_block.timestamp && block.header.deploy_hashes@
                == state.finalized_block.proto_block.deploys@ && block.header.random_bit
                == state.finalized_block.proto_block.random_bit && block.header.proposer
                == state.finalized_block.proposer && block.header.global_state_hash
                == state.pre_state_hash && block.hash@ == blake2b256_of(
                crate::block::header_bytes(block.header),
            ) && block.header.parent_hash@ == (if state.finalized_block.era_id.0 == 0
                && state.finalized_block.height == 0 {
                crate::hashing::zero_digest_bytes()
            } else {
                old(self).parent_map@[(state.finalized_block.height - 1) as u64].hash@
            }) && final(self).announced@[old(self).announced@.len() as int].block_hash
                == block.hash@),
        decreases old(self).exec_queue@.len(), 0int,
    {
        let state = *state;
        let State {
            finalized_block,
            remaining_deploys: _,
            execution_results,
            pre_state_hash,
            initial_pre_state_hash,
        } = state;
        let height = finalized_block.height();

        // Chain to the parent: the genesis child chains to the zero hash,
        // everything else to the parent summary recorded when the parent was
        // announced. The summary is consumed here.
        let parent_hash: BlockHash = if finalized_block.is_genesis_child() {
            BlockHash(Digest::zero())
        } else {
            proof {
                assert(height > 0);
            }
            match self.parent_map.remove(&(height - 1)) {
                Option::Some(summary) => summary.hash,
                Option::None => {
                    // The invariant puts the parent's summary in the map
                    // whenever a block at the next height is in flight.
                    proof {
                        assert(false);
                    }
                    return Result::Err(ExecutorFault::MissingParentSummary { height });
                },
            }
        };

        let block = crate::block::Block::new(parent_hash, pre_state_hash, finalized_block);
        let summary = ExecutedBlockSummary { hash: block.hash, post_state_hash: pre_state_hash };
        self.parent_map.insert(height, summary);
        self.announced = Ghost(
            self.announced@.push(
                AnnouncedBlock {
                    height,
                    pre_state: initial_pre_state_hash@,
                    post_state: pre_state_hash@,
                    block_hash: block.hash@,
                },
            ),
        );

        let mut effects: Vec<Effect> = Vec::new();
        effects.push(Effect::AnnounceBlock { block, execution_results });

        // If the child is already finalized, resume it now: this is how
        // out-of-order arrivals are reconciled without polling.
        if height < u64::MAX {
            let next_height = height + 1;
            match self.exec_queue.remove(&next_height) {
                Option::None => {},
                Option::Some(queued) => {
                    let more = self.handle_get_deploys_result(
                        queued.finalized_block,
                        queued.deploys,
                    );
                    match more {
                        Result::Ok(mut more_effects) => {
                            effects.append(&mut more_effects);
                        },
                        Result::Err(fault) => {
                            // A resumed block never faults: its parent has
                            // just been recorded.
                            proof {
                                assert(false);
                            }
                            return Result::Err(fault);
                        },
                    }
                },
            }
        }
        Result::Ok(effects)
    }
}

impl BlockExecutor {
    /// Reacts to one event: a request to execute a finalized block, or the
    /// response to one of the executor's own effects.
    ///
    /// A missing deploy, a missing execution root, a wrong number of
    /// execution results, a failed commit and a failed step are
    /// execution-integrity faults: the caller must treat them as fatal, and
    /// the executor itself is left unchanged by them.
    #[verifier::rlimit(60)]
    pub fn handle_event(&mut self, event: Event) -> (r: Result<Vec<Effect>, ExecutorFault>)
        requires
            old(self).wf(),
            old(self).event_admissible(event),
        ensures
            final(self).wf(),
            final(self).genesis_post_state_hash == old(self).genesis_post_state_hash,
            old(self).announced@.is_prefix_of(final(self).announced@),
            r is Err <==> match event {
                Event::Request(fb) => fb.proto_block.deploys@.len() == 0 && fb.height as int
                    > old(self).announced@.len() && old(self).exec_queue@.len()
                    >= MAX_EXEC_QUEUE_DEPTH as int,
                Event::GetDeploysResult { finalized_block, deploys } => (exists|i: int|
                    0 <= i < deploys@.len() && deploys@[i] is None) || (finalized_block.height
                    as int > old(self).announced@.len() && old(self).exec_queue@.len()
                    >= MAX_EXEC_QUEUE_DEPTH as int),
                Event::DeployExecutionResult { result, .. } => match result {
                    Result::Ok(outcomes) => outcomes@.len() != 1,
                    Result::Err(_) => true,
                },
                Event::CommitExecutionEffects { commit_result, .. } => !(commit_result
                    is Success),
                Event::RunStepResult { result, .. } => !(result is Success),
            },
            event matches Event::Request(fb) ==> (r is Err ==> r == Result::<
                Vec<Effect>,
                ExecutorFault,
            >::Err(ExecutorFault::ExecQueueFull { height: fb.height })),
            event matches Event::GetDeploysResult { finalized_block, deploys } ==> (r is Err
                ==> if exists|i: int| 0 <= i < deploys@.len() && deploys@[i] is None {
                r == Result::<Vec<Effect>, ExecutorFault>::Err(
                    ExecutorFault::MissingDeploy {
                        era_id: finalized_block.era_id.0,
                        height: finalized_block.height,
                    },
                )
            } else {
                r == Result::<Vec<Effect>, ExecutorFault>::Err(
                    ExecutorFault::ExecQueueFull { height: finalized_block.height },
                )
            }),
            event matches Event::DeployExecutionResult { result, .. } ==> {
                &&& result is Err ==> r == Result::<Vec<Effect>, ExecutorFault>::Err(
                    ExecutorFault::ExecutionRootNotFound,
                )
                &&& result matches Ok(outcomes) ==> (outcomes@.len() != 1 ==> r == Result::<
                    Vec<Effect>,
                    ExecutorFault,
                >::Err(ExecutorFault::WrongExecutionResultCount))
            },
            event matches Event::CommitExecutionEffects { .. } ==> (r is Err ==> r == Result::<
                Vec<Effect>,
                ExecutorFault,
            >::Err(ExecutorFault::CommitFailed)),
            event matches Event::RunStepResult { .. } ==> (r is Err ==> r == Result::<
                Vec<Effect>,
                ExecutorFault,
            >::Err(ExecutorFault::StepFailed)),
            r is Err ==> final(self).announced@ == old(self).announced@ && final(self).parent_map@
                == old(self).parent_map@ && final(self).exec_queue@ == old(self).exec_queue@,
            event matches Event::Request(fb) ==> {
                &&& fb.proto_block.deploys@.len() > 0 ==> {
                    &&& final(self).announced@ == old(self).announced@
                    &&& final(self).parent_map@ == old(self).parent_map@
                    &&& final(self).exec_queue@ == old(self).exec_queue@
                    &&& r matches Ok(e) && e@.len() == 1 && (e@[0] matches Effect::FetchDeploys {
                        finalized_block,
                    } && finalized_block == fb)
                }
                &&& fb.proto_block.deploys@.len() == 0 && fb.height as int > old(self).announced@.len() && old(self).exec_queue@.len() < MAX_EXEC_QUEUE_DEPTH as int ==> {
                    &&& r matches Ok(e) && e@.len() == 0
                    &&& final(self).announced@ == old(self).announced@
                    &&& final(self).exec_queue@.contains_key(fb.height)
                    &&& final(self).exec_queue@[fb.height].finalized_block == fb
                }
                &&& fb.proto_block.deploys@.len() == 0 && fb.height as int == old(self).announced@.len() && fb.era_end is None ==> {
                    &&& final(self).announced@.len() > old(self).announced@.len()
                    &&& final(self).announced@[old(self).announced@.len() as int].height
                        == fb.height
                    &&& final(self).announced@[old(self).announced@.len() as int].pre_state == old(self).expected_pre()
                    &&& final(self).announced@[old(self).announced@.len() as int].post_state
                        == old(self).expected_pre()
                }
            },
            event matches Event::DeployExecutionResult { state, deploy_hash, result } ==> (
            result matches Ok(outcomes) ==> (outcomes@.len() == 1 ==> {
                &&& final(self).announced@ == old(self).announced@
                &&& final(self).parent_map@ == old(self).parent_map@
                &&& final(self).exec_queue@ == old(self).exec_queue@
                &&& r matches Ok(e) && e@.len() == 1 && (e@[0] matches Effect::RequestCommit {
                    state: out,
                    effect,
                } && effect@ == outcomes@[0].effect@ && out.execution_results@
                    == state.execution_results@.push(
                    (
                        deploy_hash,
                        ExecutionResult { success: outcomes@[0].success, cost: outcomes@[0].cost },
                    ),
                ) && out.finalized_block == state.finalized_block && out.remaining_deploys@
                    == state.remaining_deploys@ && out.pre_state_hash == state.pre_state_hash
                    && out.initial_pre_state_hash@ == state.initial_pre_state_hash@ && final(self).in_flight_ok(*out))
            })),
            event matches Event::CommitExecutionEffects { state, commit_result } ==> (
            commit_result matches CommitResult::Success { state_root } ==> {
                &&& state.remaining_deploys@.len() > 0 ==> {
                    &&& final(self).announced@ == old(self).announced@
                    &&& r matches Ok(e) && e@.len() == 1 && (
                    e@[0] matches Effect::RequestExecution { state: out, deploy } && deploy
                        == state.remaining_deploys@[0] && out.pre_state_hash == state_root
                        && out.remaining_deploys@ == state.remaining_deploys@.remove(0)
                        && out.execution_results@ == state.execution_results@ && final(self).in_flight_ok(*out))
                }
                &&& state.remaining_deploys@.len() == 0 && state.finalized_block.era_end is Some
                    ==> {
                    &&& final(self).announced@ == old(self).announced@
                    &&& r matches Ok(e) && e@.len() == 1 && (e@[0] matches Effect::RunStep {
                        state: out,
                        step_request,
                    } && out.pre_state_hash == state_root && step_request.pre_state_hash
                        == state_root && step_request.run_auction == true && final(self).in_flight_ok(*out))
                }
                &&& state.remaining_deploys@.len() == 0 && state.finalized_block.era_end is None
                    ==> {
                    &&& final(self).announced@.len() > old(self).announced@.len()
                    &&& final(self).announced@[old(self).announced@.len() as int].height
                        == state.finalized_block.height
                    &&& final(self).announced@[old(self).announced@.len() as int].pre_state
                        == state.initial_pre_state_hash@
                    &&& final(self).announced@[old(self).announced@.len() as int].post_state
                        == state_root@
                }
            }),
            event matches Event::RunStepResult { state, result } ==> (
            result matches StepResult::Success { post_state_hash } ==> {
                &&& final(self).announced@.len() > old(self).announced@.len()
                &&& final(self).announced@[old(self).announced@.len() as int].height
                    == state.finalized_block.height
                &&& final(self).announced@[old(self).announced@.len() as int].pre_state
                    == state.initial_pre_state_hash@
                &&& final(self).announced@[old(self).announced@.len() as int].post_state
                    == post_state_hash@
                &&& r matches Ok(e) && e@.len() >= 1 && (e@[0] matches Effect::AnnounceBlock {
                    block,
                    execution_results,
                } && execution_results@ == state.execution_results@ && block.header.height
                    == state.finalized_block.height && block.header.global_state_hash
                    == post_state_hash)
            }),
    {
        match event {
            Event::Request(finalized_block) => {
                if finalized_block.proto_block().deploys().len() == 0 {
                    // Nothing to fetch; proceed with an empty queue of
                    // deploys at once.
                    self.handle_get_deploys_result(finalized_block, Vec::new())
                } else {
                    let mut effects: Vec<Effect> = Vec::new();
                    effects.push(Effect::FetchDeploys { finalized_block });
                    Result::Ok(effects)
                }
            },
            Event::GetDeploysResult { finalized_block, deploys } => {
                // A finalized block must reference only deploys that gossip
                // has already made durable; a missing one is fatal.
                let mut unwrapped: Vec<Deploy> = Vec::new();
                let mut i: usize = 0;
                while i < deploys.len()
                    invariant
                        i <= deploys@.len(),
                        unwrapped@.len() == i,
                        forall|j: int|
                            0 <= j < i ==> ((#[trigger] deploys@[j]) matches Some(d)
                                && unwrapped@[j] == d),
                        self.genesis_post_state_hash == old(self).genesis_post_state_hash,
                        self.parent_map@ == old(self).parent_map@,
                        self.exec_queue@ == old(self).exec_queue@,
                        self.announced@ == old(self).announced@,
                        self.wf(),
                        finalized_block.height as int >= self.announced@.len(),
                        !self.exec_queue@.contains_key(finalized_block.height),
                        finalized_block.height == 0 ==> finalized_block.era_id.0 == 0,
                        event == (Event::GetDeploysResult { finalized_block, deploys }),
                    decreases deploys@.len() - i,
                {
                    match &deploys[i] {
                        Option::Some(deploy) => {
                            unwrapped.push(*deploy);
                        },
                        Option::None => {
                            proof {
                                assert(deploys@[i as int] is None);
                            }
                            return Result::Err(
                                ExecutorFault::MissingDeploy {
                                    era_id: finalized_block.era_id().0,
                                    height: finalized_block.height(),
                                },
                            );
                        },
                    }
                    i += 1;
                }
                proof {
                    assert(forall|k: int|
                        0 <= k < deploys@.len() ==> !((#[trigger] deploys@[k]) is None));
                }
                self.handle_get_deploys_result(finalized_block, unwrapped)
            },
            Event::DeployExecutionResult { state, deploy_hash, result } => {
                match result {
                    Result::Err(_) => Result::Err(ExecutorFault::ExecutionRootNotFound),
                    Result::Ok(outcomes) => {
                        if outcomes.len() != 1 {
                            return Result::Err(ExecutorFault::WrongExecutionResultCount);
                        }
                        let mut outcomes = outcomes;
                        let outcome = outcomes.remove(0);
                        let mut st = *state;
                        st.execution_results.push(
                            (
                                deploy_hash,
                                ExecutionResult { success: outcome.success, cost: outcome.cost },
                            ),
                        );
                        let mut effects: Vec<Effect> = Vec::new();
                        effects.push(
                            Effect::RequestCommit { state: Box::new(st), effect: outcome.effect },
                        );
                        Result::Ok(effects)
                    },
                }
            },
            Event::CommitExecutionEffects { state, commit_result } => {
                match commit_result {
                    CommitResult::Success { state_root } => {
                        // The new root becomes the pre-state for whatever
                        // comes next in this block.
                        let mut st = *state;
                        st.pre_state_hash = state_root;
                        self.execute_next_deploy_or_create_block(Box::new(st))
                    },
                    _ => Result::Err(ExecutorFault::CommitFailed),
                }
            },
            Event::RunStepResult { state, result } => {
                match result {
                    StepResult::Success { post_state_hash } => {
                        let mut st = *state;
                        st.pre_state_hash = post_state_hash;
                        self.finalize_block_execution(Box::new(st))
                    },
                    StepResult::Failure => Result::Err(ExecutorFault::StepFailed),
                }
            },
        }
    }
}

/// Height ordering: executed-block announcements are emitted in strictly
/// increasing height order, however the requests arrived. Under the
/// executor's invariant, the trace of announcements records strictly
/// increasing heights — in fact exactly the contiguous heights from zero.
pub proof fn lemma_height_ordering(executor: BlockExecutor)
    requires
        executor.wf(),
    ensures
        forall|i: int, j: int|
            0 <= i < j < executor.announced@.len() ==> (#[trigger] executor.announced@[i]).height
                < (#[trigger] executor.announced@[j]).height,
{
}

/// Pre/post chaining: every announced block's recorded pre-state hash equals
/// the post-state hash of the block announced before it, and the first
/// announced block starts from the genesis post-state hash.
pub proof fn lemma_pre_post_chaining(executor: BlockExecutor)
    requires
        executor.wf(),
    ensures
        executor.announced@.len() > 0 ==> executor.announced@[0].pre_state
            == executor.genesis_post_state_hash@,
        forall|h: int|
            0 < h < executor.announced@.len() ==> (#[trigger] executor.announced@[h]).pre_state
                == executor.announced@[h - 1].post_state,
{
}

} // verus!
