use vstd::prelude::*;

use crate::cache::{plan_sound, recorded, QueryPlan, StateCache};
use crate::delegate::DescartesV2FoldDelegate;
use crate::types::{Address, Block, BlockHash, BlockState, DescartesV2State};

verus! {

/// What the fold graph is built from.
#[derive(Clone, Copy, Debug, PartialEq, Eq)]
pub struct SetupConfig {
    pub safety_margin: usize,
    pub input_contract_address: Address,
    pub descartes_contract_address: Address,
}

/// The folds of the graph, leaves first.
#[derive(Clone, Copy, Debug, PartialEq, Eq, Structural)]
pub enum FoldKind {
    Input,
    AccumulatingEpoch,
    SealedEpoch,
    FinalizedEpoch,
    Epoch,
}

/// One fold of the graph: the contract it reads, if any, its safety margin,
/// and the folds whose state it reads.
#[derive(Clone, Debug, PartialEq, Eq)]
pub struct FoldNode {
    pub kind: FoldKind,
    pub contract_address: Option<Address>,
    pub safety_margin: usize,
    pub dependencies: Vec<FoldKind>,
}

/// The input fold: a leaf, reading the input contract.
fn create_input(config: &SetupConfig) -> (r: FoldNode)
    ensures
        r.kind == FoldKind::Input,
        r.contract_address == Some(config.input_contract_address),
        r.safety_margin == config.safety_margin,
        r.dependencies@ == Seq::<FoldKind>::empty(),
{
    FoldNode {
        kind: FoldKind::Input,
        contract_address: Some(config.input_contract_address),
        safety_margin: config.safety_margin,
        dependencies: Vec::new(),
    }
}

/// The accumulating-epoch fold: reads the input fold only.
fn create_accumulating_epoch(config: &SetupConfig) -> (r: FoldNode)
    ensures
        r.kind == FoldKind::AccumulatingEpoch,
        r.contract_address is None,
        r.safety_margin == config.safety_margin,
        r.dependencies@ == seq![FoldKind::Input],
{
    let dependencies = vec![FoldKind::Input];
    FoldNode {
        kind: FoldKind::AccumulatingEpoch,
        contract_address: None,
        safety_margin: config.safety_margin,
        dependencies,
    }
}

/// The sealed-epoch fold: reads the rollup contract and the input fold.
fn create_sealed_epoch(config: &SetupConfig) -> (r: FoldNode)
    ensures
        r.kind == FoldKind::SealedEpoch,
        r.contract_address == Some(config.descartes_contract_address),
        r.safety_margin == config.safety_margin,
        r.dependencies@ == seq![FoldKind::Input],
{
    let dependencies = vec![FoldKind::Input];
    FoldNode {
        kind: FoldKind::SealedEpoch,
        contract_address: Some(config.descartes_contract_address),
        safety_margin: config.safety_margin,
        dependencies,
    }
}

/// The finalized-epoch fold: reads the rollup contract and the input fold.
fn create_finalized_epoch(config: &SetupConfig) -> (r: FoldNode)
    ensures
        r.kind == FoldKind::FinalizedEpoch,
        r.contract_address == Some(config.descartes_contract_address),
        r.safety_margin == config.safety_margin,
        r.dependencies@ == seq![FoldKind::Input],
{
    let dependencies = vec![FoldKind::Input];
    FoldNode {
        kind: FoldKind::FinalizedEpoch,
        contract_address: Some(config.descartes_contract_address),
        safety_margin: config.safety_margin,
        dependencies,
    }
}

/// Each node depends only on nodes that stand before it.
pub open spec fn in_dependency_order(nodes: Seq<FoldNode>) -> bool {
    forall|i: int, d: int|
        0 <= i < nodes.len() && 0 <= d < nodes[i].dependencies@.len() ==> exists|j: int|
            0 <= j < i && nodes[j].kind == #[trigger] nodes[i].dependencies@[d]
}

/// The epoch fold and everything under it, in dependency order: one input
/// fold reading the input contract; the accumulating, sealed and finalized
/// folds, each reading that input fold, the latter two also the rollup
/// contract; the epoch fold over those three, reading the rollup contract.
/// Every fold has the configured safety margin.
pub open spec fn is_epoch_graph(nodes: Seq<FoldNode>, config: SetupConfig) -> bool {
    &&& nodes.len() == 5
    &&& nodes[0].kind == FoldKind::Input
    &&& nodes[1].kind == FoldKind::AccumulatingEpoch
    &&& nodes[2].kind == FoldKind::SealedEpoch
    &&& nodes[3].kind == FoldKind::FinalizedEpoch
    &&& nodes[4].kind == FoldKind::Epoch
    &&& nodes[0].contract_address == Some(config.input_contract_address)
    &&& nodes[1].contract_address is None
    &&& nodes[2].contract_address == Some(config.descartes_contract_address)
    &&& nodes[3].contract_address == Some(config.descartes_contract_address)
    &&& nodes[4].contract_address == Some(config.descartes_contract_address)
    &&& nodes[0].dependencies@ == Seq::<FoldKind>::empty()
    &&& nodes[1].dependencies@ == seq![FoldKind::Input]
    &&& nodes[2].dependencies@ == seq![FoldKind::Input]
    &&& nodes[3].dependencies@ == seq![FoldKind::Input]
    &&& nodes[4].dependencies@ == seq![
        FoldKind::AccumulatingEpoch,
        FoldKind::SealedEpoch,
        FoldKind::FinalizedEpoch,
    ]
    &&& forall|i: int| 0 <= i < 5 ==> (#[trigger] nodes[i]).safety_margin == config.safety_margin
    &&& in_dependency_order(nodes)
}

/// Builds the epoch fold and everything under it.
fn create_epoch(config: &SetupConfig) -> (r: Vec<FoldNode>)
    ensures
        is_epoch_graph(r@, *config),
{
    let input = create_input(config);
    let accumulating = create_accumulating_epoch(config);
    let sealed = create_sealed_epoch(config);
    let finalized = create_finalized_epoch(config);
    let epoch = FoldNode {
        kind: FoldKind::Epoch,
        contract_address: Some(config.descartes_contract_address),
        safety_margin: config.safety_margin,
        dependencies: vec![
            FoldKind::AccumulatingEpoch,
            FoldKind::SealedEpoch,
            FoldKind::FinalizedEpoch,
        ],
    };
    let r = vec![input, accumulating, sealed, finalized, epoch];
    assert forall|i: int, d: int|
        0 <= i < r@.len() && 0 <= d < r@[i].dependencies@.len() implies exists|j: int|
            0 <= j < i && r@[j].kind == #[trigger] r@[i].dependencies@[d] by {
        if i == 4 {
            assert(r@[d + 1].kind == r@[i].dependencies@[d]);
        } else {
            assert(r@[0].kind == r@[i].dependencies@[d]);
        }
    }
    r
}

/// The top-level rollup fold: its delegate, the graph it reads from, one
/// safety margin for all, and its durable cache.
pub struct DescartesStateFold {
    pub delegate: DescartesV2FoldDelegate,
    pub dependencies: Vec<FoldNode>,
    pub safety_margin: usize,
    pub cache: StateCache<DescartesV2State>,
}

impl DescartesStateFold {
    pub open spec fn wf(&self) -> bool {
        self.cache.wf()
    }

    /// Decides how to answer a query for block `target` under the initial
    /// epoch `initial` (see [`StateCache::plan_query`]).
    pub fn plan_query(&self, initial: u64, arena: &Vec<Block>, target: &BlockHash) -> (r: QueryPlan)
        ensures
            plan_sound(self.cache, initial, arena@, target@, r),
    {
        self.cache.plan_query(initial, arena, target)
    }

    /// Keeps a computed state durably, under the initial epoch it was
    /// computed from, if its block lies at least the safety margin below
    /// `latest`. The delegate, the graph and the margin stay as they were.
    pub fn record(&mut self, state: BlockState<DescartesV2State>, latest: u64) -> (r: bool)
        requires
            old(self).wf(),
        ensures
            final(self).wf(),
            final(self).safety_margin == old(self).safety_margin,
            final(self).delegate == old(self).delegate,
            final(self).dependencies == old(self).dependencies,
            recorded(
                old(self).cache,
                final(self).cache,
                state.state.initial_epoch,
                state,
                latest,
                old(self).safety_margin,
                r,
            ),
    {
        let margin = self.safety_margin;
        let initial = state.state.initial_epoch;
        self.cache.record(initial, state, latest, margin)
    }
}

/// Builds the fold graph from `config`: every fold gets the same safety
/// margin, the rollup fold reads the rollup contract, and nothing is cached yet.
pub fn create_descartes_state_fold(config: &SetupConfig) -> (r: DescartesStateFold)
    ensures
        r.wf(),
        r.safety_margin == config.safety_margin,
        r.delegate.address() == config.descartes_contract_address,
        r.cache.entries().len() == 0,
        is_epoch_graph(r.dependencies@, *config),
{
    let dependencies = create_epoch(config);
    let delegate = DescartesV2FoldDelegate::new(config.descartes_contract_address);
    DescartesStateFold {
        delegate,
        dependencies,
        safety_margin: config.safety_margin,
        cache: StateCache::new(),
    }
}

} // verus!
