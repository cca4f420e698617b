use descartes_fold::cache::{block_is_confirmed, QueryPlan, StateCache};
use descartes_fold::delegate::{CreationRecord, DescartesV2Created, DescartesV2FoldDelegate, FoldError, SyncError};
use descartes_fold::setup::{create_descartes_state_fold, FoldKind, SetupConfig};
use descartes_fold::types::{
    hash_eq, AccumulatingEpoch, Address, Block, BlockHash, BlockState, ContractPhase, EpochState,
    EpochWithClaims, Claims, FinalizedEpochs, ImmutableState, PhaseState,
};

fn addr(b: u8) -> Address {
    Address { bytes: [b; 20] }
}

fn hash(b: u8) -> BlockHash {
    BlockHash { bytes: [b; 32] }
}

fn block(number: u64, h: u8, parent: u8, timestamp: u64) -> Block {
    Block { number, hash: hash(h), parent_hash: hash(parent), timestamp }
}

fn created() -> DescartesV2Created {
    DescartesV2Created {
        input: addr(1),
        output: addr(2),
        validator_manager: addr(3),
        dispute_manager: addr(4),
        input_duration: 500,
        challenge_period: 300,
    }
}

fn record(h: u8) -> CreationRecord {
    CreationRecord { event: created(), block_hash: hash(h) }
}

fn raw_accumulating(epoch_number: u64, phase_change: Option<u64>) -> EpochState {
    EpochState {
        current_phase: ContractPhase::InputAccumulation {},
        initial_epoch: 0,
        finalized_epochs: FinalizedEpochs { finalized_epochs: Vec::new(), initial_epoch: 0 },
        current_epoch: AccumulatingEpoch::new(epoch_number),
        phase_change_timestamp: phase_change,
    }
}

fn delegate() -> DescartesV2FoldDelegate {
    DescartesV2FoldDelegate::new(addr(9))
}

#[test]
fn constants_come_from_creation_event() {
    let c = ImmutableState::from((created(), 777));
    assert_eq!(c.input_duration, 500);
    assert_eq!(c.challenge_period, 300);
    assert_eq!(c.contract_creation_timestamp, 777);
    assert_eq!(c.input_contract_address, addr(1));
    assert_eq!(c.output_contract_address, addr(2));
    assert_eq!(c.validator_contract_address, addr(3));
    assert_eq!(c.dispute_contract_address, addr(4));
}

#[test]
fn sync_builds_logical_state() {
    let b = block(5, 5, 4, 1200);
    let s = delegate()
        .sync(2, &b, &vec![record(1)], Some(1000), Some(raw_accumulating(2, None)))
        .unwrap();
    assert_eq!(s.constants, ImmutableState::from((created(), 1000)));
    assert_eq!(s.initial_epoch, 2);
    assert_eq!(s.current_phase, PhaseState::InputAccumulation {});
    let late = delegate()
        .sync(2, &block(6, 6, 5, 1501), &vec![record(1)], Some(1000), Some(raw_accumulating(2, None)))
        .unwrap();
    assert_eq!(late.current_epoch.epoch_number, 3);
}

#[test]
fn sync_errors() {
    let b = block(5, 5, 4, 1200);
    let d = delegate();
    assert_eq!(
        d.sync(0, &b, &Vec::new(), Some(1000), Some(raw_accumulating(0, None))),
        Err(SyncError::CreateEventNotFound)
    );
    assert_eq!(
        d.sync(0, &b, &vec![record(1), record(2)], Some(1000), Some(raw_accumulating(0, None))),
        Err(SyncError::DuplicateCreateEvent)
    );
    assert_eq!(
        d.sync(0, &b, &vec![record(1)], None, Some(raw_accumulating(0, None))),
        Err(SyncError::CreationBlockNotFound)
    );
    assert_eq!(d.sync(0, &b, &vec![record(1)], Some(1000), None), Err(SyncError::EpochStateUnavailable));
    let mut dispute = raw_accumulating(0, None);
    dispute.current_phase = ContractPhase::AwaitingDispute {
        sealed_epoch: EpochWithClaims {
            epoch_number: 0,
            inputs: Vec::new(),
            claims: Claims { claims: Vec::new(), first_claim_timestamp: 1100 },
        },
    };
    assert_eq!(d.sync(0, &b, &vec![record(1)], Some(1000), Some(dispute.clone())), Err(SyncError::UnexpectedDispute));
    let prev = d.sync(0, &b, &vec![record(1)], Some(1000), Some(raw_accumulating(0, None))).unwrap();
    assert_eq!(d.fold(&prev, &b, None), Err(FoldError::EpochStateUnavailable));
    assert_eq!(d.fold(&prev, &b, Some(dispute)), Err(FoldError::UnexpectedDispute));
}

#[test]
fn fold_carries_constants_forward() {
    let d = delegate();
    let s0 = d.sync(1, &block(5, 5, 4, 1200), &vec![record(1)], Some(1000), Some(raw_accumulating(1, None))).unwrap();
    let s1 = d.fold(&s0, &block(6, 6, 5, 1400), Some(raw_accumulating(1, None))).unwrap();
    let s2 = d.fold(&s1, &block(7, 7, 6, 1600), Some(raw_accumulating(1, None))).unwrap();
    assert_eq!(s1.constants, s0.constants);
    assert_eq!(s2.constants, s0.constants);
    assert_eq!(s2.initial_epoch, 1);
    assert_eq!(s1.current_phase, PhaseState::InputAccumulation {});
    assert_eq!(s2.current_epoch.epoch_number, 2);
}

#[test]
fn convert_is_identity() {
    let d = delegate();
    let s = d.sync(0, &block(5, 5, 4, 1200), &vec![record(1)], Some(1000), Some(raw_accumulating(0, None))).unwrap();
    let bs = BlockState { block: block(5, 5, 4, 1200), state: s };
    assert_eq!(d.convert(bs.clone()), bs);
    assert_eq!(d.descartesv2_address(), addr(9));
}

#[test]
fn confirmation_boundary() {
    // depth == margin: confirmed; depth == margin - 1: not.
    assert!(block_is_confirmed(90, 100, 10));
    assert!(!block_is_confirmed(91, 100, 10));
    assert!(block_is_confirmed(100, 100, 0));
    assert!(!block_is_confirmed(101, 100, 0));
    assert!(!block_is_confirmed(u64::MAX, u64::MAX, usize::MAX));
}

#[test]
fn only_confirmed_states_are_cached() {
    let mut cache: StateCache<u32> = StateCache::new();
    assert!(cache.record(0, BlockState { block: block(90, 90, 89, 0), state: 1 }, 100, 10));
    assert!(!cache.record(0, BlockState { block: block(91, 91, 90, 0), state: 2 }, 100, 10));
    assert_eq!(cache.len(), 1);
    assert_eq!(cache.lookup(0, &hash(90)), Some(0));
    assert_eq!(cache.lookup(0, &hash(91)), None);
    // Computing the unconfirmed block again still leaves nothing behind.
    assert!(!cache.record(0, BlockState { block: block(91, 91, 90, 0), state: 2 }, 100, 10));
    assert_eq!(cache.plan_query(0, &vec![], &hash(91)), QueryPlan::ColdSync);
    // Recording the same block again replaces its entry.
    assert!(cache.record(0, BlockState { block: block(90, 90, 89, 0), state: 3 }, 100, 10));
    assert_eq!(cache.len(), 1);
    assert_eq!(cache.get(0).state, 3);
}

#[test]
fn reorg_never_resumes_from_stale_block() {
    // B0 <- B1 was cached; a reorganization replaced B1 by B1', and B2's parent is B1'.
    let mut cache: StateCache<u32> = StateCache::new();
    assert!(cache.record(0, BlockState { block: block(0, 10, 1, 0), state: 100 }, 50, 2));
    assert!(cache.record(0, BlockState { block: block(1, 11, 10, 0), state: 111 }, 50, 2));
    let arena = vec![block(1, 21, 10, 0), block(2, 22, 21, 0), block(1, 11, 10, 0)];
    match cache.plan_query(0, &arena, &hash(22)) {
        QueryPlan::Resume { entry, depth } => {
            assert_eq!(cache.get(entry).block.hash, hash(10));
            assert_eq!(depth, 2);
        }
        other => panic!("unexpected plan {:?}", other),
    }
    // On the old chain, B1 itself is the nearest cached ancestor.
    let old_arena = vec![block(2, 12, 11, 0), block(1, 11, 10, 0)];
    assert_eq!(cache.plan_query(0, &old_arena, &hash(12)), QueryPlan::Resume { entry: 1, depth: 1 });
    assert_eq!(cache.plan_query(0, &old_arena, &hash(11)), QueryPlan::Cached { entry: 1 });
    // Without a header for the target, nothing can be reused.
    assert_eq!(cache.plan_query(0, &vec![], &hash(22)), QueryPlan::ColdSync);
}

#[test]
fn hashes_compare_by_bytes() {
    let mut other = hash(3);
    assert!(hash_eq(&hash(3), &other));
    other.bytes[31] = 4;
    assert!(!hash_eq(&hash(3), &other));
}

#[test]
fn setup_wires_every_fold() {
    let config = SetupConfig {
        safety_margin: 12,
        input_contract_address: addr(1),
        descartes_contract_address: addr(2),
    };
    let mut fold = create_descartes_state_fold(&config);
    assert_eq!(fold.safety_margin, 12);
    assert_eq!(fold.delegate.descartesv2_address(), addr(2));
    let kinds: Vec<FoldKind> = fold.dependencies.iter().map(|n| n.kind).collect();
    assert_eq!(
        kinds,
        vec![
            FoldKind::Input,
            FoldKind::AccumulatingEpoch,
            FoldKind::SealedEpoch,
            FoldKind::FinalizedEpoch,
            FoldKind::Epoch,
        ]
    );
    assert!(fold.dependencies.iter().all(|n| n.safety_margin == 12));
    assert_eq!(fold.dependencies[0].contract_address, Some(addr(1)));
    assert_eq!(fold.dependencies[4].contract_address, Some(addr(2)));
    for i in 1..4 {
        assert_eq!(fold.dependencies[i].dependencies, vec![FoldKind::Input]);
    }
    assert_eq!(fold.dependencies[1].contract_address, None);
    assert_eq!(fold.dependencies[2].contract_address, Some(addr(2)));
    assert_eq!(fold.dependencies[3].contract_address, Some(addr(2)));
    let d = DescartesV2FoldDelegate::new(addr(2));
    let s = d.sync(0, &block(5, 5, 4, 1200), &vec![record(1)], Some(1000), Some(raw_accumulating(0, None))).unwrap();
    assert!(!fold.record(BlockState { block: block(95, 95, 94, 0), state: s.clone() }, 100));
    assert!(fold.record(BlockState { block: block(88, 88, 87, 0), state: s }, 100));
    assert_eq!(fold.plan_query(0, &vec![], &hash(88)), QueryPlan::Cached { entry: 0 });
}

#[test]
fn overflowing_epoch_number_is_reported_by_stage() {
    let d = delegate();
    let late = block(9, 9, 8, 5000);
    assert_eq!(
        d.sync(0, &late, &vec![record(1)], Some(1000), Some(raw_accumulating(u64::MAX, None))),
        Err(SyncError::EpochNumberOverflow)
    );
    let prev = d.sync(0, &block(5, 5, 4, 1200), &vec![record(1)], Some(1000), Some(raw_accumulating(0, None))).unwrap();
    assert_eq!(d.fold(&prev, &late, Some(raw_accumulating(u64::MAX, None))), Err(FoldError::EpochNumberOverflow));
}

#[test]
fn cache_is_keyed_by_initial_epoch() {
    let mut cache: StateCache<u32> = StateCache::new();
    assert!(cache.record(3, BlockState { block: block(10, 10, 9, 0), state: 30 }, 100, 5));
    assert_eq!(cache.plan_query(3, &vec![], &hash(10)), QueryPlan::Cached { entry: 0 });
    // Another initial epoch neither hits nor resumes from that entry.
    assert_eq!(cache.plan_query(4, &vec![], &hash(10)), QueryPlan::ColdSync);
    let arena = vec![block(11, 11, 10, 0)];
    assert_eq!(cache.plan_query(4, &arena, &hash(11)), QueryPlan::ColdSync);
    assert_eq!(cache.plan_query(3, &arena, &hash(11)), QueryPlan::Resume { entry: 0, depth: 1 });
    // Both initial epochs can be cached for one block.
    assert!(cache.record(4, BlockState { block: block(10, 10, 9, 0), state: 40 }, 100, 5));
    assert_eq!(cache.len(), 2);
    assert_eq!(cache.get(cache.lookup(3, &hash(10)).unwrap()).state, 30);
    assert_eq!(cache.get(cache.lookup(4, &hash(10)).unwrap()).state, 40);
}

#[test]
fn header_walk_stops_at_cached_parent_or_limit() {
    let mut cache: StateCache<u32> = StateCache::new();
    assert!(cache.record(0, BlockState { block: block(8, 8, 7, 0), state: 1 }, 100, 5));
    let arena = vec![block(10, 10, 9, 0)];
    assert_eq!(cache.next_header_to_fetch(0, &arena, 4), Some(hash(9)));
    assert_eq!(cache.next_header_to_fetch(0, &arena, 1), None);
    assert_eq!(cache.next_header_to_fetch(0, &vec![], 4), None);
    let arena = vec![block(10, 10, 9, 0), block(9, 9, 8, 0)];
    assert_eq!(cache.next_header_to_fetch(0, &arena, 4), None);
    assert_eq!(cache.next_header_to_fetch(1, &arena, 4), Some(hash(8)));
}

#[test]
fn recorded_state_is_returned_unchanged() {
    let config = SetupConfig {
        safety_margin: 10,
        input_contract_address: addr(1),
        descartes_contract_address: addr(2),
    };
    let mut fold = create_descartes_state_fold(&config);
    let s = fold
        .delegate
        .sync(6, &block(90, 90, 89, 1200), &vec![record(1)], Some(1000), Some(raw_accumulating(6, None)))
        .unwrap();
    let bs = BlockState { block: block(90, 90, 89, 1200), state: s };
    assert!(fold.record(bs.clone(), 100));
    match fold.plan_query(6, &vec![], &hash(90)) {
        QueryPlan::Cached { entry } => assert_eq!(fold.cache.get(entry), &bs),
        other => panic!("unexpected plan {:?}", other),
    }
    assert_eq!(fold.plan_query(0, &vec![], &hash(90)), QueryPlan::ColdSync);
}
