use vstd::prelude::*;

use crate::logical::{
    convert_raw_to_logical, is_dispute, is_logical_state, translation_fits, TranslationError,
};
use crate::types::{Address, Block, BlockHash, BlockState, DescartesV2State, EpochState, ImmutableState};

verus! {

/// The event the rollup contract emits once, when it is created.
#[derive(Clone, Copy, Debug, PartialEq, Eq)]
pub struct DescartesV2Created {
    pub input: Address,
    pub output: Address,
    pub validator_manager: Address,
    pub dispute_manager: Address,
    pub input_duration: u64,
    pub challenge_period: u64,
}

/// A creation event together with the hash of the block that holds it.
#[derive(Clone, Copy, Debug, PartialEq, Eq)]
pub struct CreationRecord {
    pub event: DescartesV2Created,
    pub block_hash: BlockHash,
}

/// Why a cold start (`sync`) failed.
#[derive(Clone, Copy, Debug, PartialEq, Eq, Structural)]
pub enum SyncError {
    CreateEventNotFound,
    DuplicateCreateEvent,
    CreationBlockNotFound,
    EpochStateUnavailable,
    UnexpectedDispute,
    EpochNumberOverflow,
}

/// Why an incremental step (`fold`) failed.
#[derive(Clone, Copy, Debug, PartialEq, Eq, Structural)]
pub enum FoldError {
    EpochStateUnavailable,
    UnexpectedDispute,
    EpochNumberOverflow,
}

/// The constants that a creation event and its block's timestamp fix.
pub open spec fn constants_of(ev: DescartesV2Created, ts: u64) -> ImmutableState {
    ImmutableState {
        input_duration: ev.input_duration,
        challenge_period: ev.challenge_period,
        contract_creation_timestamp: ts,
        input_contract_address: ev.input,
        output_contract_address: ev.output,
        validator_contract_address: ev.validator_manager,
        dispute_contract_address: ev.dispute_manager,
    }
}

impl From<(DescartesV2Created, u64)> for ImmutableState {
    fn from(src: (DescartesV2Created, u64)) -> (r: ImmutableState)
        ensures
            r == constants_of(src.0, src.1),
    {
        let (ev, ts) = src;
        ImmutableState {
            input_duration: ev.input_duration,
            challenge_period: ev.challenge_period,
            contract_creation_timestamp: ts,
            input_contract_address: ev.input,
            output_contract_address: ev.output,
            validator_contract_address: ev.validator_manager,
            dispute_contract_address: ev.dispute_manager,
        }
    }
}

impl vstd::std_specs::convert::FromSpecImpl<(DescartesV2Created, u64)> for ImmutableState {
    open spec fn obeys_from_spec() -> bool {
        true
    }

    open spec fn from_spec(src: (DescartesV2Created, u64)) -> ImmutableState {
        constants_of(src.0, src.1)
    }
}

/// What a cold start yields from the creation events found, the timestamp of
/// the block holding the (single) event if that block was found, and the raw
/// epoch state if the epoch fold produced one.
pub open spec fn sync_result(
    r: Result<DescartesV2State, SyncError>,
    initial_epoch: u64,
    block: Block,
    events: Seq<CreationRecord>,
    creation_timestamp: Option<u64>,
    raw: Option<EpochState>,
) -> bool {
    if events.len() == 0 {
        r == Err::<DescartesV2State, SyncError>(SyncError::CreateEventNotFound)
    } else if events.len() > 1 {
        r == Err::<DescartesV2State, SyncError>(SyncError::DuplicateCreateEvent)
    } else if creation_timestamp is None {
        r == Err::<DescartesV2State, SyncError>(SyncError::CreationBlockNotFound)
    } else if raw is None {
        r == Err::<DescartesV2State, SyncError>(SyncError::EpochStateUnavailable)
    } else if is_dispute(raw->Some_0) {
        r == Err::<DescartesV2State, SyncError>(SyncError::UnexpectedDispute)
    } else if !translation_fits(
        raw->Some_0,
        constants_of(events[0].event, creation_timestamp->Some_0),
        block,
    ) {
        r == Err::<DescartesV2State, SyncError>(SyncError::EpochNumberOverflow)
    } else {
        r matches Ok(s) && is_logical_state(
            s,
            raw->Some_0,
            constants_of(events[0].event, creation_timestamp->Some_0),
            block,
            initial_epoch,
        )
    }
}

/// What an incremental step yields from the previous state and the raw epoch
/// state at `block`, if the epoch fold produced one.
pub open spec fn fold_result(
    r: Result<DescartesV2State, FoldError>,
    previous: DescartesV2State,
    block: Block,
    raw: Option<EpochState>,
) -> bool {
    if raw is None {
        r == Err::<DescartesV2State, FoldError>(FoldError::EpochStateUnavailable)
    } else if is_dispute(raw->Some_0) {
        r == Err::<DescartesV2State, FoldError>(FoldError::UnexpectedDispute)
    } else if !translation_fits(raw->Some_0, previous.constants, block) {
        r == Err::<DescartesV2State, FoldError>(FoldError::EpochNumberOverflow)
    } else {
        r matches Ok(s) && is_logical_state(
            s,
            raw->Some_0,
            previous.constants,
            block,
            previous.initial_epoch,
        )
    }
}

/// The top-level delegate: reads the constants once, then turns the epoch
/// fold's raw state into the logical state at each block.
pub struct DescartesV2FoldDelegate {
    descartesv2_address: Address,
}

impl DescartesV2FoldDelegate {
    pub fn new(descartesv2_address: Address) -> (r: DescartesV2FoldDelegate)
        ensures
            r.address() == descartesv2_address,
    {
        DescartesV2FoldDelegate { descartesv2_address }
    }

    pub closed spec fn address(&self) -> Address {
        self.descartesv2_address
    }

    /// The rollup contract whose creation event `sync` reads.
    pub fn descartesv2_address(&self) -> (r: Address)
        ensures
            r == self.address(),
    {
        self.descartesv2_address
    }

    /// Cold start at `block`: exactly one creation event must exist, its
    /// block must be found, and the epoch fold must have produced a state.
    pub fn sync(
        &self,
        initial_epoch: u64,
        block: &Block,
        events: &Vec<CreationRecord>,
        creation_timestamp: Option<u64>,
        raw: Option<EpochState>,
    ) -> (r: Result<DescartesV2State, SyncError>)
        ensures
            sync_result(r, initial_epoch, *block, events@, creation_timestamp, raw),
    {
        if events.len() == 0 {
            return Err(SyncError::CreateEventNotFound);
        }
        if events.len() > 1 {
            return Err(SyncError::DuplicateCreateEvent);
        }
        let timestamp = match creation_timestamp {
            Some(ts) => ts,
            None => {
                return Err(SyncError::CreationBlockNotFound);
            },
        };
        let constants = ImmutableState::from((events[0].event, timestamp));
        let raw_state = match raw {
            Some(s) => s,
            None => {
                return Err(SyncError::EpochStateUnavailable);
            },
        };
        match convert_raw_to_logical(raw_state, constants, block, initial_epoch) {
            Ok(s) => Ok(s),
            Err(TranslationError::UnexpectedDispute) => Err(SyncError::UnexpectedDispute),
            Err(TranslationError::EpochNumberOverflow) => Err(SyncError::EpochNumberOverflow),
        }
    }

    /// Incremental step at `block`: the constants and the initial epoch are
    /// carried over from the previous state unchanged.
    pub fn fold(&self, previous_state: &DescartesV2State, block: &Block, raw: Option<EpochState>) -> (r:
        Result<DescartesV2State, FoldError>)
        ensures
            fold_result(r, *previous_state, *block, raw),
    {
        let constants = previous_state.constants;
        let raw_state = match raw {
            Some(s) => s,
            None => {
                return Err(FoldError::EpochStateUnavailable);
            },
        };
        match convert_raw_to_logical(raw_state, constants, block, previous_state.initial_epoch) {
            Ok(s) => Ok(s),
            Err(TranslationError::UnexpectedDispute) => Err(FoldError::UnexpectedDispute),
            Err(TranslationError::EpochNumberOverflow) => Err(FoldError::EpochNumberOverflow),
        }
    }

    /// Consumers see the block state as it is.
    pub fn convert(&self, accumulator: BlockState<DescartesV2State>) -> (r: BlockState<
        DescartesV2State,
    >)
        ensures
            r == accumulator,
    {
        accumulator
    }
}

/// The constants read by the one cold start are the ones every later
/// incremental step carries: along any run of successful folds starting from
/// a successful sync, each state holds the constants of the creation event.
pub proof fn lemma_constants_fixed(
    initial_epoch: u64,
    events: Seq<CreationRecord>,
    creation_timestamp: Option<u64>,
    states: Seq<DescartesV2State>,
    blocks: Seq<Block>,
    raws: Seq<Option<EpochState>>,
)
    requires
        states.len() >= 1,
        blocks.len() == states.len(),
        raws.len() == states.len(),
        sync_result(Ok(states[0]), initial_epoch, blocks[0], events, creation_timestamp, raws[0]),
        forall|i: int|
            1 <= i < states.len() ==> fold_result(
                Ok(#[trigger] states[i]),
                states[i - 1],
                blocks[i],
                raws[i],
            ),
    ensures
        events.len() == 1,
        creation_timestamp is Some,
        forall|i: int|
            0 <= i < states.len() ==> (#[trigger] states[i]).constants == constants_of(
                events[0].event,
                creation_timestamp->Some_0,
            ) && states[i].constants == states[0].constants && states[i].initial_epoch
                == initial_epoch,
    decreases states.len(),
{
    if states.len() > 1 {
        let n = (states.len() - 1) as int;
        lemma_constants_fixed(
            initial_epoch,
            events,
            creation_timestamp,
            states.take(n),
            blocks.take(n),
            raws.take(n),
        );
        assert forall|i: int| 0 <= i < states.len() implies (#[trigger] states[i]).constants
            == states[0].constants && states[i].initial_epoch == initial_epoch by {
            if i < n {
                assert(states.take(n)[i] == states[i]);
            } else {
                assert(states.take(n)[i - 1] == states[i - 1]);
                assert(fold_result(Ok(states[i]), states[i - 1], blocks[i], raws[i]));
            }
        }
    }
}

} // verus!
