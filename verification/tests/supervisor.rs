//! Era creation, rotation, retention, weight rescaling, and event routing.

use std::collections::HashMap;

use chain_core::block::{BlockHeader, EraEnd, ProtoBlock};
use chain_core::era_supervisor::{
    rescale_stakes, BlockContext, ChainspecParams, DelegatedAction, Effect, EraId, EraSupervisor,
    ProtocolOutcome, Routing, SupervisorFault, BLOCK_REWARD, RETAIN_ERAS,
};
use chain_core::hashing::Digest;
use chain_core::keys::{NodeId, PublicKey, SecretKey};
use chain_core::timestamp::{TimeDiff, Timestamp};

fn digest(byte: u8) -> Digest {
    Digest([byte; 32])
}

fn key(byte: u8) -> PublicKey {
    PublicKey([byte; 32])
}

fn chainspec() -> ChainspecParams {
    ChainspecParams {
        name: b"casper-test-chain".to_vec(),
        genesis_timestamp: Timestamp::from_millis(1_000),
        genesis_era_start_timestamp: Timestamp::from_millis(1_000),
        era_duration: TimeDiff::from_millis(10_000),
        minimum_era_height: 10,
        minimum_round_exponent: 4,
        finality_threshold_percent: 10,
        upgrades: vec![],
    }
}

fn supervisor() -> EraSupervisor {
    EraSupervisor::new(
        Timestamp::from_millis(2_000),
        SecretKey([9u8; 32]),
        key(1),
        vec![(key(1), 100), (key(2), 50)],
        chainspec(),
        &digest(7),
        Timestamp::from_millis(500),
    )
    .unwrap()
}

fn header(era: u64, height: u64, era_end: Option<EraEnd>) -> BlockHeader {
    BlockHeader {
        parent_hash: chain_core::block::BlockHash::new(digest(0)),
        global_state_hash: digest(20),
        body_hash: digest(21),
        deploy_hashes: vec![],
        random_bit: false,
        era_end,
        timestamp: Timestamp::from_millis(3_000),
        era_id: EraId(era),
        height,
        proposer: key(1),
    }
}

/// Creating the same era twice is a fault the process must die on, never a
/// silently ignored call.
#[test]
fn duplicate_era_creation_is_fatal() {
    let mut supervisor = supervisor();
    let fault = supervisor
        .new_era(
            EraId(0),
            Timestamp::from_millis(2_000),
            vec![(key(1), 100)],
            Timestamp::from_millis(1_000),
            0,
            &digest(7),
        )
        .unwrap_err();
    assert_eq!(fault, SupervisorFault::DuplicateEra(EraId(0)));
}

/// An era cannot start with zero total stake.
#[test]
fn zero_total_stake_is_fatal() {
    let result = EraSupervisor::new(
        Timestamp::from_millis(2_000),
        SecretKey([9u8; 32]),
        key(1),
        vec![],
        chainspec(),
        &digest(7),
        Timestamp::from_millis(500),
    );
    assert!(matches!(result, Err(SupervisorFault::ZeroTotalWeight)));
}

/// A supervisor whose registry lost its current era reports the
/// programming-invariant violation instead of corrupting state.
#[test]
fn missing_current_era_is_fatal() {
    let mut broken = EraSupervisor {
        active_eras: HashMap::new(),
        secret_signing_key: SecretKey([9u8; 32]),
        public_signing_key: key(1),
        current_era: EraId(3),
        chainspec: chainspec(),
        node_start_time: Timestamp::from_millis(500),
    };
    assert!(matches!(
        broken.deactivate_current_era(),
        Err(SupervisorFault::CurrentEraMissing)
    ));
}

/// After more than RETAIN_ERAS + 1 eras were created in sequence, every era
/// behind the retention window is gone and every era inside it answers.
#[test]
fn old_eras_are_evicted_and_recent_eras_answer() {
    let mut supervisor = supervisor();
    let last: u64 = RETAIN_ERAS + 3;
    for era in 1..=last {
        supervisor
            .new_era(
                EraId(era),
                Timestamp::from_millis(2_000 + era),
                vec![(key(1), 100)],
                Timestamp::from_millis(1_500 + era),
                era * 10,
                &digest(7),
            )
            .unwrap();
    }
    let now = Timestamp::from_millis(9_000);
    // Everything at least RETAIN_ERAS + 1 behind the current era is gone.
    for era in 0..=(last - RETAIN_ERAS - 1) {
        assert!(matches!(
            supervisor.handle_timer(EraId(era), now),
            Routing::DroppedObsolete
        ));
    }
    // Everything inside the window still answers.
    for era in (last - RETAIN_ERAS)..=last {
        assert!(matches!(
            supervisor.handle_timer(EraId(era), now),
            Routing::Delegate(DelegatedAction::HandleTimer { .. })
        ));
    }
    // An era not created yet is a future era.
    assert!(matches!(
        supervisor.handle_timer(EraId(last + 1), now),
        Routing::DroppedFuture
    ));
}

/// Small stakes pass through rescaling unchanged, since the scale divisor is
/// one; the total is their sum.
#[test]
fn small_stakes_rescale_to_themselves() {
    let (weights, total) = rescale_stakes(&vec![(key(1), 100u128), (key(2), 50u128)]);
    assert_eq!(weights.len(), 2);
    assert!(weights[0].0 == key(1));
    assert_eq!(weights[0].1, 100);
    assert!(weights[1].0 == key(2));
    assert_eq!(weights[1].1, 50);
    assert_eq!(total, 150);
}

/// Huge stakes are scaled down so that the rescaled sum fits the weight
/// domain; equal stakes get equal weights, larger stakes no smaller ones.
#[test]
fn huge_stakes_rescale_within_the_weight_domain() {
    let huge: u128 = 1u128 << 100;
    let (weights, total) = rescale_stakes(&vec![
        (key(1), huge),
        (key(2), huge),
        (key(3), huge / 2),
    ]);
    assert_eq!(weights[0].1, weights[1].1);
    assert!(weights[2].1 <= weights[0].1);
    assert!(weights[0].1 > 0);
    let sum: u128 = weights.iter().map(|(_, w)| *w as u128).sum();
    assert!(sum <= u64::MAX as u128);
    assert_eq!(total as u128, sum);
}

/// The era created at genesis activates this node when it is a validator and
/// was started before the era began.
#[test]
fn genesis_era_activates_a_validator_node() {
    let supervisor = supervisor();
    let era = supervisor.active_eras.get(&0).unwrap();
    assert!(era.consensus.active);
    assert_eq!(era.start_height, 0);
    assert_eq!(era.consensus.total_weight, 150);
    // 10 percent of the total weight of 150.
    assert_eq!(era.consensus.ftt, 15);
    assert_eq!(era.consensus.params.block_reward, BLOCK_REWARD);
    assert_eq!(era.consensus.params.reduced_block_reward, BLOCK_REWARD / 5);
    // Era start plus era duration.
    assert_eq!(era.consensus.params.end_time.millis(), 11_000);
}

/// A node that is not in the validator set does not activate.
#[test]
fn non_validator_node_does_not_activate() {
    let supervisor = EraSupervisor::new(
        Timestamp::from_millis(2_000),
        SecretKey([9u8; 32]),
        key(99),
        vec![(key(1), 100), (key(2), 50)],
        chainspec(),
        &digest(7),
        Timestamp::from_millis(500),
    )
    .unwrap();
    assert!(!supervisor.active_eras.get(&0).unwrap().consensus.active);
}

/// Two eras with the same validators but different upgrade histories get
/// different instance identifiers.
#[test]
fn upgrade_history_changes_the_instance_id() {
    let plain = supervisor();
    let mut upgraded_spec = chainspec();
    upgraded_spec.upgrades = vec![chain_core::era_supervisor::UpgradePoint {
        activation_point_rank: 0,
        upgrade_installer_bytes: Some(vec![1, 2, 3]),
        upgrade_installer_args: None,
    }];
    let upgraded = EraSupervisor::new(
        Timestamp::from_millis(2_000),
        SecretKey([9u8; 32]),
        key(1),
        vec![(key(1), 100), (key(2), 50)],
        upgraded_spec,
        &digest(7),
        Timestamp::from_millis(500),
    )
    .unwrap();
    let plain_id = plain.active_eras.get(&0).unwrap().consensus.instance_id;
    let upgraded_id = upgraded.active_eras.get(&0).unwrap().consensus.instance_id;
    assert!(plain_id != upgraded_id);
}

/// A non-switch block is announced as handled immediately upon signing.
#[test]
fn non_switch_block_is_handled_immediately() {
    let supervisor = supervisor();
    let effects = supervisor.handle_linear_chain_block(header(0, 5, None));
    assert_eq!(effects.len(), 2);
    assert!(matches!(effects[0], Effect::RespondSignature { .. }));
    assert!(matches!(effects[1], Effect::AnnounceBlockHandled(_)));
}

/// A switch block is announced as handled only once its successor era has
/// been created from the validator weights it asked for.
#[test]
fn switch_block_is_handled_only_after_successor_era_exists() {
    let mut supervisor = supervisor();
    let era_end = EraEnd { equivocators: vec![], rewards: vec![] };
    let switch = header(0, 5, Some(era_end));

    // Signing happens at once, but the block is not yet handled: the
    // successor era's validator weights are requested first.
    let effects = supervisor.handle_linear_chain_block(switch);
    assert_eq!(effects.len(), 2);
    assert!(matches!(effects[0], Effect::RespondSignature { .. }));
    match &effects[1] {
        Effect::RequestValidators { era_id, .. } => assert_eq!(*era_id, EraId(1)),
        _ => panic!("expected a validator-weights request"),
    }
    assert!(!effects.iter().any(|e| matches!(e, Effect::AnnounceBlockHandled(_))));

    // Once the weights arrive, era 1 is created and only then is the block
    // announced as handled.
    let era_end = EraEnd { equivocators: vec![], rewards: vec![] };
    let effects = supervisor
        .handle_get_validators_response(
            header(0, 5, Some(era_end)),
            vec![(key(1), 100)],
            Timestamp::from_millis(3_500),
        )
        .unwrap();
    assert_eq!(effects.len(), 1);
    assert!(matches!(effects[0], Effect::AnnounceBlockHandled(_)));
    assert_eq!(supervisor.current_era, EraId(1));
    let era = supervisor.active_eras.get(&1).unwrap();
    // The successor starts at the next chain height, from the switch block's
    // own timestamp, and the previous era stopped voting.
    assert_eq!(era.start_height, 6);
    assert_eq!(era.consensus.params.end_time.millis(), 13_000);
    assert!(!supervisor.active_eras.get(&0).unwrap().consensus.active);
}

/// A block of an already obsolete era is signed and nothing more.
#[test]
fn stale_era_block_is_only_signed() {
    let mut supervisor = supervisor();
    supervisor
        .new_era(
            EraId(1),
            Timestamp::from_millis(2_500),
            vec![(key(1), 100)],
            Timestamp::from_millis(2_000),
            10,
            &digest(7),
        )
        .unwrap();
    let effects = supervisor.handle_linear_chain_block(header(0, 5, None));
    assert_eq!(effects.len(), 1);
    assert!(matches!(effects[0], Effect::RespondSignature { .. }));
}

/// A finalized value is announced and forwarded for execution at the era's
/// starting height plus the protocol's height.
#[test]
fn finalized_value_becomes_a_finalized_block_at_era_offset() {
    let mut supervisor = supervisor();
    supervisor
        .new_era(
            EraId(1),
            Timestamp::from_millis(2_500),
            vec![(key(1), 100)],
            Timestamp::from_millis(2_000),
            10,
            &digest(7),
        )
        .unwrap();
    let outcome = ProtocolOutcome::FinalizedBlock {
        value: ProtoBlock::new(vec![], false),
        timestamp: Timestamp::from_millis(2_600),
        height: 3,
        era_end: None,
        proposer: key(1),
    };
    let effects = supervisor.handle_consensus_result(EraId(1), outcome).unwrap();
    assert_eq!(effects.len(), 2);
    match (&effects[0], &effects[1]) {
        (Effect::AnnounceFinalizedBlock(announced), Effect::ExecuteBlock(executed)) => {
            assert_eq!(executed.height(), 13);
            assert_eq!(executed.era_id(), EraId(1));
            assert_eq!(announced.height(), 13);
        }
        _ => panic!("expected the announcement and the execution request"),
    }
}

/// A finalized value for an era the registry never held is a fault.
#[test]
fn finalized_value_for_unknown_era_is_fatal() {
    let mut supervisor = supervisor();
    let outcome = ProtocolOutcome::FinalizedBlock {
        value: ProtoBlock::new(vec![], false),
        timestamp: Timestamp::from_millis(2_600),
        height: 3,
        era_end: None,
        proposer: key(1),
    };
    let fault = supervisor.handle_consensus_result(EraId(9), outcome).unwrap_err();
    assert_eq!(fault, SupervisorFault::UnknownEra(EraId(9)));
}

/// The remaining protocol results translate to their effects: messages go to
/// the network tagged with the era, a timer request becomes a bounded
/// wake-up, a proposal request carries a seed, a validation request goes to
/// the validity checker, and invalid input is absorbed.
#[test]
fn protocol_results_translate_to_effects() {
    let mut supervisor = supervisor();
    let era = EraId(0);

    let effects = supervisor
        .handle_consensus_result(era, ProtocolOutcome::CreatedGossipMessage(vec![1, 2]))
        .unwrap();
    match &effects[0] {
        Effect::BroadcastMessage(msg) => {
            assert_eq!(msg.era_id, era);
            assert_eq!(msg.payload, vec![1, 2]);
        }
        _ => panic!("expected a broadcast"),
    }

    let effects = supervisor
        .handle_consensus_result(
            era,
            ProtocolOutcome::CreatedTargetedMessage(vec![3], NodeId(11)),
        )
        .unwrap();
    match &effects[0] {
        Effect::SendMessage(peer, msg) => {
            assert_eq!(*peer, NodeId(11));
            assert_eq!(msg.payload, vec![3]);
        }
        _ => panic!("expected a targeted send"),
    }

    let wanted = Timestamp::from_millis(9_999_999_999);
    let effects = supervisor
        .handle_consensus_result(era, ProtocolOutcome::ScheduleTimer(wanted))
        .unwrap();
    match &effects[0] {
        Effect::SetTimeout { era_id, timestamp, delay } => {
            assert_eq!(*era_id, era);
            assert_eq!(*timestamp, wanted);
            assert!(delay.millis() <= wanted.millis());
        }
        _ => panic!("expected a timeout"),
    }

    let context = BlockContext { timestamp: Timestamp::from_millis(2_500) };
    let effects = supervisor
        .handle_consensus_result(era, ProtocolOutcome::CreateNewBlock { block_context: context })
        .unwrap();
    match &effects[0] {
        Effect::RequestProtoBlock { era_id, block_context, .. } => {
            assert_eq!(*era_id, era);
            assert_eq!(*block_context, context);
        }
        _ => panic!("expected a proposal request"),
    }

    let effects = supervisor
        .handle_consensus_result(
            era,
            ProtocolOutcome::ValidateConsensusValue {
                sender: NodeId(5),
                proto_block: ProtoBlock::new(vec![], true),
            },
        )
        .unwrap();
    match &effects[0] {
        Effect::ValidateBlock { era_id, sender, .. } => {
            assert_eq!(*era_id, era);
            assert_eq!(*sender, NodeId(5));
        }
        _ => panic!("expected a validation request"),
    }

    let effects = supervisor
        .handle_consensus_result(
            era,
            ProtocolOutcome::InvalidIncomingMessage { sender: NodeId(5), payload: vec![9] },
        )
        .unwrap();
    assert!(effects.is_empty());
}

/// Messages, proposals and validity verdicts are routed to the era they name
/// and dropped for unknown eras.
#[test]
fn inbound_events_route_to_their_era() {
    let supervisor = supervisor();

    let msg = EraId(0).message(vec![5, 6]);
    assert!(matches!(
        supervisor.handle_message(NodeId(1), msg),
        Routing::Delegate(DelegatedAction::HandleMessage { .. })
    ));

    let msg = EraId(7).message(vec![5, 6]);
    assert!(matches!(supervisor.handle_message(NodeId(1), msg), Routing::DroppedFuture));

    let context = BlockContext { timestamp: Timestamp::from_millis(2_500) };
    let (effects, routing) =
        supervisor.handle_new_proto_block(EraId(0), ProtoBlock::new(vec![], false), context);
    assert_eq!(effects.len(), 1);
    assert!(matches!(effects[0], Effect::AnnounceProposedProtoBlock(_)));
    assert!(matches!(routing, Routing::Delegate(DelegatedAction::Propose { .. })));

    let (_, routing) =
        supervisor.handle_accept_proto_block(EraId(0), ProtoBlock::new(vec![], false));
    match routing {
        Routing::Delegate(DelegatedAction::ResolveValidity { valid, .. }) => assert!(valid),
        _ => panic!("expected a validity verdict"),
    }

    let routing = supervisor.handle_invalid_proto_block(
        EraId(0),
        NodeId(2),
        ProtoBlock::new(vec![], false),
    );
    match routing {
        Routing::Delegate(DelegatedAction::ResolveValidity { valid, .. }) => assert!(!valid),
        _ => panic!("expected a validity verdict"),
    }
}
