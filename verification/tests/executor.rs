//! End-to-end runs of the execute-commit pipeline.

use chain_core::block::{Deploy, DeployHash, FinalizedBlock, ProtoBlock};
use chain_core::block_executor::{
    BlockExecutor, CommitResult, DeployExecutionOutcome, Effect, Event, ExecutorFault,
    RootNotFound, State, StepResult, MAX_EXEC_QUEUE_DEPTH,
};
use chain_core::era_supervisor::EraId;
use chain_core::hashing::Digest;
use chain_core::keys::PublicKey;
use chain_core::timestamp::Timestamp;

fn digest(byte: u8) -> Digest {
    Digest([byte; 32])
}

fn proposer() -> PublicKey {
    PublicKey([42u8; 32])
}

fn finalized(deploys: Vec<DeployHash>, era: u64, height: u64) -> FinalizedBlock {
    FinalizedBlock::new(
        ProtoBlock::new(deploys, false),
        Timestamp::from_millis(1_000 + height),
        None,
        EraId(era),
        height,
        proposer(),
    )
}

fn expect_single(effects: Vec<Effect>) -> Effect {
    let mut effects = effects;
    assert_eq!(effects.len(), 1);
    effects.remove(0)
}

/// A block with one deploy that succeeds and commits: the executed block
/// carries the commit's root as its global-state hash and chains to the zero
/// parent hash.
#[test]
fn one_deploy_block_executes_and_chains_to_zero_parent() {
    let genesis = digest(7);
    let mut executor = BlockExecutor::new(genesis);

    let deploy_hash = DeployHash(digest(1));
    let block = finalized(vec![deploy_hash], 0, 0);

    let fetched = match expect_single(executor.handle_event(Event::Request(block)).unwrap()) {
        Effect::FetchDeploys { finalized_block } => finalized_block,
        _ => panic!("expected a deploy fetch"),
    };

    let state = match expect_single(
        executor
            .handle_event(Event::GetDeploysResult {
                finalized_block: fetched,
                deploys: vec![Some(Deploy::new(deploy_hash))],
            })
            .unwrap(),
    ) {
        Effect::RequestExecution { state, deploy } => {
            assert!(deploy.id() == &deploy_hash);
            assert!(state.pre_state_hash == genesis);
            state
        }
        _ => panic!("expected an execution request"),
    };

    let outcome = DeployExecutionOutcome {
        success: true,
        cost: 10,
        effect: vec![1, 2, 3],
    };
    let state = match expect_single(
        executor
            .handle_event(Event::DeployExecutionResult {
                state,
                deploy_hash,
                result: Ok(vec![outcome]),
            })
            .unwrap(),
    ) {
        Effect::RequestCommit { state, effect } => {
            assert_eq!(effect, vec![1, 2, 3]);
            state
        }
        _ => panic!("expected a commit request"),
    };

    let new_root = digest(9);
    match expect_single(
        executor
            .handle_event(Event::CommitExecutionEffects {
                state,
                commit_result: CommitResult::Success { state_root: new_root },
            })
            .unwrap(),
    ) {
        Effect::AnnounceBlock { block, execution_results } => {
            assert_eq!(block.height(), 0);
            assert!(block.global_state_hash() == &new_root);
            assert!(block.header().parent_hash().inner() == &Digest::zero());
            assert_eq!(execution_results.len(), 1);
            assert!(execution_results[0].0 == deploy_hash);
            assert!(execution_results[0].1.success);
            assert_eq!(execution_results[0].1.cost, 10);
        }
        _ => panic!("expected the executed-block announcement"),
    }
}

/// A block that arrives before its parent waits in the exec queue; once the
/// parent finishes, both are announced, in height order.
#[test]
fn out_of_order_block_waits_for_parent_then_both_announce_in_order() {
    let genesis = digest(7);
    let mut executor = BlockExecutor::new(genesis);

    // Height 0 executes at once (no deploys).
    let effects = executor.handle_event(Event::Request(finalized(vec![], 0, 0))).unwrap();
    assert_eq!(effects.len(), 1);
    assert!(matches!(effects[0], Effect::AnnounceBlock { .. }));

    // Height 2 arrives before height 1: buffered, nothing announced.
    let effects = executor.handle_event(Event::Request(finalized(vec![], 0, 2))).unwrap();
    assert!(effects.is_empty());

    // Height 1 arrives: both 1 and 2 are announced, in order.
    let effects = executor.handle_event(Event::Request(finalized(vec![], 0, 1))).unwrap();
    assert_eq!(effects.len(), 2);
    match (&effects[0], &effects[1]) {
        (
            Effect::AnnounceBlock { block: first, .. },
            Effect::AnnounceBlock { block: second, .. },
        ) => {
            assert_eq!(first.height(), 1);
            assert_eq!(second.height(), 2);
            // The child chains to its parent's hash and post-state.
            assert!(second.header().parent_hash() == first.hash());
        }
        _ => panic!("expected two executed-block announcements"),
    }
}

/// A switch block issues exactly one step request, with one slash item per
/// equivocator and one reward item per recipient, and the step's post-state
/// becomes the block's global-state hash.
#[test]
fn switch_block_runs_one_step_and_uses_its_post_state() {
    let genesis = digest(7);
    let mut executor = BlockExecutor::new(genesis);

    let era_end = chain_core::block::EraEnd {
        equivocators: vec![PublicKey([1u8; 32])],
        rewards: vec![(PublicKey([2u8; 32]), 100), (PublicKey([3u8; 32]), 200)],
    };
    let block = FinalizedBlock::new(
        ProtoBlock::new(vec![], true),
        Timestamp::from_millis(5_000),
        Some(era_end),
        EraId(0),
        0,
        proposer(),
    );

    let state = match expect_single(executor.handle_event(Event::Request(block)).unwrap()) {
        Effect::RunStep { state, step_request } => {
            assert!(step_request.pre_state_hash == genesis);
            assert_eq!(step_request.slash_items.len(), 1);
            assert!(step_request.slash_items[0].validator_id == PublicKey([1u8; 32]));
            assert_eq!(step_request.reward_items.len(), 2);
            assert!(step_request.reward_items[0].validator_id == PublicKey([2u8; 32]));
            assert_eq!(step_request.reward_items[0].value, 100);
            assert!(step_request.reward_items[1].validator_id == PublicKey([3u8; 32]));
            assert_eq!(step_request.reward_items[1].value, 200);
            assert!(step_request.run_auction);
            state
        }
        _ => panic!("expected a step request"),
    };

    let stepped_root = digest(11);
    match expect_single(
        executor
            .handle_event(Event::RunStepResult {
                state,
                result: StepResult::Success { post_state_hash: stepped_root },
            })
            .unwrap(),
    ) {
        Effect::AnnounceBlock { block, .. } => {
            assert!(block.global_state_hash() == &stepped_root);
            assert!(block.header().era_end().is_some());
        }
        _ => panic!("expected the executed-block announcement"),
    }
}

/// Announcements come out in strictly increasing height order however the
/// requests arrive.
#[test]
fn announcements_rise_in_height_for_any_arrival_order() {
    let genesis = digest(7);
    let mut executor = BlockExecutor::new(genesis);

    let mut announced_heights: Vec<u64> = Vec::new();
    for height in [3u64, 1, 4, 0, 2] {
        let effects = executor.handle_event(Event::Request(finalized(vec![], 0, height))).unwrap();
        for effect in effects {
            if let Effect::AnnounceBlock { block, .. } = effect {
                announced_heights.push(block.height());
            }
        }
    }
    assert_eq!(announced_heights, vec![0, 1, 2, 3, 4]);
}

/// Each executed block starts from the post-state of its predecessor; the
/// first starts from the genesis post-state hash.
#[test]
fn pre_state_of_each_block_is_predecessor_post_state() {
    let genesis = digest(7);
    let mut executor = BlockExecutor::new(genesis);
    let deploy_hash = DeployHash(digest(2));

    let mut previous_post = genesis;
    for height in 0u64..3 {
        let block = finalized(vec![deploy_hash], 0, height);
        let fetched = match expect_single(executor.handle_event(Event::Request(block)).unwrap()) {
            Effect::FetchDeploys { finalized_block } => finalized_block,
            _ => panic!("expected a deploy fetch"),
        };
        let state = match expect_single(
            executor
                .handle_event(Event::GetDeploysResult {
                    finalized_block: fetched,
                    deploys: vec![Some(Deploy::new(deploy_hash))],
                })
                .unwrap(),
        ) {
            Effect::RequestExecution { state, .. } => {
                // The block starts from its predecessor's post-state.
                assert!(state.pre_state_hash == previous_post);
                state
            }
            _ => panic!("expected an execution request"),
        };
        let state = match expect_single(
            executor
                .handle_event(Event::DeployExecutionResult {
                    state,
                    deploy_hash,
                    result: Ok(vec![DeployExecutionOutcome {
                        success: true,
                        cost: 1,
                        effect: vec![],
                    }]),
                })
                .unwrap(),
        ) {
            Effect::RequestCommit { state, .. } => state,
            _ => panic!("expected a commit request"),
        };
        let new_root = digest(100 + height as u8);
        match expect_single(
            executor
                .handle_event(Event::CommitExecutionEffects {
                    state,
                    commit_result: CommitResult::Success { state_root: new_root },
                })
                .unwrap(),
        ) {
            Effect::AnnounceBlock { block, .. } => {
                assert!(block.global_state_hash() == &new_root);
            }
            _ => panic!("expected the executed-block announcement"),
        }
        previous_post = new_root;
    }
}

/// A deploy the store does not hold is fatal.
#[test]
fn missing_deploy_is_fatal() {
    let mut executor = BlockExecutor::new(digest(7));
    let block = finalized(vec![DeployHash(digest(1))], 3, 9);
    let fault = match executor.handle_event(Event::GetDeploysResult {
        finalized_block: block,
        deploys: vec![None],
    }) {
        Err(fault) => fault,
        Ok(_) => panic!("expected a fault"),
    };
    assert_eq!(fault, ExecutorFault::MissingDeploy { era_id: 3, height: 9 });
}

/// A missing execution root is fatal.
#[test]
fn execution_root_not_found_is_fatal() {
    let mut executor = BlockExecutor::new(digest(7));
    let state = start_one_deploy_block(&mut executor);
    let fault = match executor.handle_event(Event::DeployExecutionResult {
        state,
        deploy_hash: DeployHash(digest(1)),
        result: Err(RootNotFound::new(digest(7))),
    }) {
        Err(fault) => fault,
        Ok(_) => panic!("expected a fault"),
    };
    assert_eq!(fault, ExecutorFault::ExecutionRootNotFound);
}

/// Anything but exactly one execution result for one deploy is fatal.
#[test]
fn wrong_execution_result_count_is_fatal() {
    let mut executor = BlockExecutor::new(digest(7));
    let state = start_one_deploy_block(&mut executor);
    let fault = match executor.handle_event(Event::DeployExecutionResult {
        state,
        deploy_hash: DeployHash(digest(1)),
        result: Ok(vec![]),
    }) {
        Err(fault) => fault,
        Ok(_) => panic!("expected a fault"),
    };
    assert_eq!(fault, ExecutorFault::WrongExecutionResultCount);
}

/// A failed commit is fatal: global state is no longer in a known condition.
#[test]
fn failed_commit_is_fatal() {
    let mut executor = BlockExecutor::new(digest(7));
    let state = start_one_deploy_block(&mut executor);
    let state = match expect_single(
        executor
            .handle_event(Event::DeployExecutionResult {
                state,
                deploy_hash: DeployHash(digest(1)),
                result: Ok(vec![DeployExecutionOutcome {
                    success: true,
                    cost: 1,
                    effect: vec![],
                }]),
            })
            .unwrap(),
    ) {
        Effect::RequestCommit { state, .. } => state,
        _ => panic!("expected a commit request"),
    };
    let fault = match executor.handle_event(Event::CommitExecutionEffects {
        state,
        commit_result: CommitResult::RootNotFound,
    }) {
        Err(fault) => fault,
        Ok(_) => panic!("expected a fault"),
    };
    assert_eq!(fault, ExecutorFault::CommitFailed);
}

/// A failed end-of-era step is fatal.
#[test]
fn failed_step_is_fatal() {
    let mut executor = BlockExecutor::new(digest(7));
    let era_end = chain_core::block::EraEnd { equivocators: vec![], rewards: vec![] };
    let block = FinalizedBlock::new(
        ProtoBlock::new(vec![], false),
        Timestamp::from_millis(1),
        Some(era_end),
        EraId(0),
        0,
        proposer(),
    );
    let state = match expect_single(executor.handle_event(Event::Request(block)).unwrap()) {
        Effect::RunStep { state, .. } => state,
        _ => panic!("expected a step request"),
    };
    let fault = match executor.handle_event(Event::RunStepResult {
        state,
        result: StepResult::Failure,
    }) {
        Err(fault) => fault,
        Ok(_) => panic!("expected a fault"),
    };
    assert_eq!(fault, ExecutorFault::StepFailed);
}

/// A restarted node seeds the parent-summary map from its stored chain, so
/// the next block resumes from the stored post-state.
#[test]
fn restart_seeds_parent_map_from_stored_chain() {
    let genesis = digest(7);

    // Build one executed block with a fresh executor.
    let mut first = BlockExecutor::new(genesis);
    let effects = first.handle_event(Event::Request(finalized(vec![], 0, 0))).unwrap();
    let stored = match expect_single(effects) {
        Effect::AnnounceBlock { block, .. } => block,
        _ => panic!("expected the executed-block announcement"),
    };

    // Restart: seed a new executor with the stored chain; height 1 resumes.
    let mut restarted = BlockExecutor::new(genesis).with_parent_map(vec![stored]);
    let effects = restarted.handle_event(Event::Request(finalized(vec![], 0, 1))).unwrap();
    match expect_single(effects) {
        Effect::AnnounceBlock { block, .. } => {
            assert_eq!(block.height(), 1);
            assert!(block.global_state_hash() == &genesis);
        }
        _ => panic!("expected the executed-block announcement"),
    }
}

/// The exec queue buffers out-of-order blocks only up to its bound; one more
/// is a fault rather than unbounded growth.
#[test]
fn exec_queue_is_bounded() {
    let mut executor = BlockExecutor::new(digest(7));
    // Heights 1.. wait for height 0, which never arrives.
    for height in 1..=(MAX_EXEC_QUEUE_DEPTH as u64) {
        let effects = executor.handle_event(Event::Request(finalized(vec![], 0, height))).unwrap();
        assert!(effects.is_empty());
    }
    let over = MAX_EXEC_QUEUE_DEPTH as u64 + 1;
    match executor.handle_event(Event::Request(finalized(vec![], 0, over))) {
        Err(fault) => assert_eq!(fault, ExecutorFault::ExecQueueFull { height: over }),
        Ok(_) => panic!("expected a fault"),
    }
}

fn start_one_deploy_block(executor: &mut BlockExecutor) -> Box<State> {
    let deploy_hash = DeployHash(digest(1));
    let block = finalized(vec![deploy_hash], 0, 0);
    let fetched = match expect_single(executor.handle_event(Event::Request(block)).unwrap()) {
        Effect::FetchDeploys { finalized_block } => finalized_block,
        _ => panic!("expected a deploy fetch"),
    };
    match expect_single(
        executor
            .handle_event(Event::GetDeploysResult {
                finalized_block: fetched,
                deploys: vec![Some(Deploy::new(deploy_hash))],
            })
            .unwrap(),
    ) {
        Effect::RequestExecution { state, .. } => state,
        _ => panic!("expected an execution request"),
    }
}
