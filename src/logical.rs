use vstd::prelude::*;

use crate::types::{
    AccumulatingEpoch, Block, ContractPhase, DescartesV2State, EpochState, ImmutableState,
    PhaseState, SealedEpochState,
};

verus! {

/// Why the raw state has no logical counterpart.
#[derive(Clone, Copy, Debug, PartialEq, Eq, Structural)]
pub enum TranslationError {
    /// The raw state names a phase that this deployment never enters.
    UnexpectedDispute,
    /// Time sealed the epoch, and the next epoch's number does not fit in a `u64`.
    EpochNumberOverflow,
}

pub open spec fn is_dispute(raw: EpochState) -> bool {
    raw.current_phase is AwaitingDispute
}

/// When the current input window opened: the last phase change, or else the
/// contract's creation.
pub open spec fn input_window_start(raw: EpochState, constants: ImmutableState) -> int {
    match raw.phase_change_timestamp {
        Some(ts) => ts as int,
        None => constants.contract_creation_timestamp as int,
    }
}

/// The raw phase is input accumulation, but the input window closed before `block`.
pub open spec fn sealed_by_time(raw: EpochState, constants: ImmutableState, block: Block) -> bool {
    &&& raw.current_phase is InputAccumulation
    &&& block.timestamp > input_window_start(raw, constants) + constants.input_duration
}

/// The later of the first claim and the last phase change: the challenge clock
/// restarts on every conflicting claim.
pub open spec fn last_move(first_claim_ts: u64, round_start: u64) -> u64 {
    if first_claim_ts >= round_start {
        first_claim_ts
    } else {
        round_start
    }
}

/// The logical phase at `block` given the raw phase (dispute excluded).
pub open spec fn logical_phase(raw: EpochState, constants: ImmutableState, block: Block) -> PhaseState {
    match raw.current_phase {
        ContractPhase::AwaitingConsensus { sealed_epoch, round_start } => match sealed_epoch {
            SealedEpochState::SealedEpochNoClaims { sealed_epoch } => {
                PhaseState::EpochSealedAwaitingFirstClaim { sealed_epoch }
            },
            SealedEpochState::SealedEpochWithClaims { claimed_epoch } => {
                let first = claimed_epoch.claims.first_claim_timestamp;
                let moved = last_move(first, round_start);
                if block.timestamp > moved + constants.challenge_period {
                    PhaseState::ConsensusTimeout { claimed_epoch }
                } else if moved == first {
                    PhaseState::AwaitingConsensusNoConflict { claimed_epoch }
                } else {
                    PhaseState::AwaitingConsensusAfterConflict {
                        claimed_epoch,
                        challenge_period_base_ts: round_start,
                    }
                }
            },
        },
        _ => if sealed_by_time(raw, constants, block) {
            PhaseState::EpochSealedAwaitingFirstClaim { sealed_epoch: raw.current_epoch }
        } else {
            PhaseState::InputAccumulation {}
        },
    }
}

/// `s` is the logical state of `raw` at `block`. Where time alone sealed the
/// epoch, the open epoch is a fresh, empty one numbered after the sealed one.
pub open spec fn is_logical_state(
    s: DescartesV2State,
    raw: EpochState,
    constants: ImmutableState,
    block: Block,
    initial_epoch: u64,
) -> bool {
    &&& s.constants == constants
    &&& s.initial_epoch == initial_epoch
    &&& s.current_phase == logical_phase(raw, constants, block)
    &&& s.finalized_epochs == raw.finalized_epochs
    &&& if sealed_by_time(raw, constants, block) {
        &&& s.current_epoch.epoch_number == raw.current_epoch.epoch_number + 1
        &&& s.current_epoch.inputs@.len() == 0
    } else {
        s.current_epoch == raw.current_epoch
    }
}

/// Where time seals the epoch, the number of the next one must fit in a `u64`.
pub open spec fn translation_fits(raw: EpochState, constants: ImmutableState, block: Block) -> bool {
    sealed_by_time(raw, constants, block) ==> raw.current_epoch.epoch_number < u64::MAX
}

/// The translation fails exactly on the dispute phase, or where the next
/// epoch's number would overflow, and otherwise yields the logical state.
pub open spec fn translation_result(
    r: Result<DescartesV2State, TranslationError>,
    raw: EpochState,
    constants: ImmutableState,
    block: Block,
    initial_epoch: u64,
) -> bool {
    if is_dispute(raw) {
        r == Err::<DescartesV2State, TranslationError>(TranslationError::UnexpectedDispute)
    } else if !translation_fits(raw, constants, block) {
        r == Err::<DescartesV2State, TranslationError>(TranslationError::EpochNumberOverflow)
    } else {
        r matches Ok(s) && is_logical_state(s, raw, constants, block, initial_epoch)
    }
}

/// Converts the raw contract state into the logical state at `block`: phase
/// changes that elapsed time has made true, but that no transaction has yet
/// recorded, are applied.
pub fn convert_raw_to_logical(
    contract_state: EpochState,
    constants: ImmutableState,
    block: &Block,
    initial_epoch: u64,
) -> (r: Result<DescartesV2State, TranslationError>)
    ensures
        translation_result(r, contract_state, constants, *block, initial_epoch),
{
    let EpochState { current_phase, initial_epoch: _, finalized_epochs, current_epoch, phase_change_timestamp } =
        contract_state;
    let (phase_state, current_epoch) = match current_phase {
        ContractPhase::InputAccumulation {} => {
            let start: u64 = match phase_change_timestamp {
                Some(ts) => ts,
                None => constants.contract_creation_timestamp,
            };
            if (block.timestamp as u128) > (start as u128) + (constants.input_duration as u128) {
                if current_epoch.epoch_number == u64::MAX {
                    return Err(TranslationError::EpochNumberOverflow);
                }
                let next = AccumulatingEpoch::new(current_epoch.epoch_number + 1);
                (PhaseState::EpochSealedAwaitingFirstClaim { sealed_epoch: current_epoch }, next)
            } else {
                (PhaseState::InputAccumulation {}, current_epoch)
            }
        },
        ContractPhase::AwaitingConsensus { sealed_epoch, round_start } => {
            let phase = match sealed_epoch {
                SealedEpochState::SealedEpochNoClaims { sealed_epoch } => {
                    PhaseState::EpochSealedAwaitingFirstClaim { sealed_epoch }
                },
                SealedEpochState::SealedEpochWithClaims { claimed_epoch } => {
                    let first_claim_timestamp = claimed_epoch.claims.first_claim_timestamp();
                    let time_of_last_move = if first_claim_timestamp >= round_start {
                        first_claim_timestamp
                    } else {
                        round_start
                    };
                    if (block.timestamp as u128) > (time_of_last_move as u128)
                        + (constants.challenge_period as u128) {
                        PhaseState::ConsensusTimeout { claimed_epoch }
                    } else if time_of_last_move == first_claim_timestamp {
                        PhaseState::AwaitingConsensusNoConflict { claimed_epoch }
                    } else {
                        PhaseState::AwaitingConsensusAfterConflict {
                            claimed_epoch,
                            challenge_period_base_ts: round_start,
                        }
                    }
                },
            };
            (phase, current_epoch)
        },
        ContractPhase::AwaitingDispute { .. } => {
            return Err(TranslationError::UnexpectedDispute);
        },
    };
    Ok(
        DescartesV2State {
            constants,
            initial_epoch,
            current_phase: phase_state,
            finalized_epochs,
            current_epoch,
        },
    )
}

/// Determinism: two results of the translation on the same raw state,
/// constants, block and initial epoch agree on every field (the fresh epoch's
/// inputs compared by their contents).
pub proof fn lemma_translation_deterministic(
    r1: Result<DescartesV2State, TranslationError>,
    r2: Result<DescartesV2State, TranslationError>,
    raw: EpochState,
    constants: ImmutableState,
    block: Block,
    initial_epoch: u64,
)
    requires
        translation_result(r1, raw, constants, block, initial_epoch),
        translation_result(r2, raw, constants, block, initial_epoch),
    ensures
        r1 is Ok <==> r2 is Ok,
        r1 is Err ==> r1 == r2,
        r1 is Ok ==> {
            let (s1, s2) = (r1->Ok_0, r2->Ok_0);
            &&& s1.constants == s2.constants
            &&& s1.initial_epoch == s2.initial_epoch
            &&& s1.current_phase == s2.current_phase
            &&& s1.finalized_epochs == s2.finalized_epochs
            &&& s1.current_epoch.epoch_number == s2.current_epoch.epoch_number
            &&& s1.current_epoch.inputs@ == s2.current_epoch.inputs@
        },
{
}

/// A raw sealed epoch with no claims is always logically awaiting its first
/// claim, at any block.
pub proof fn lemma_no_claims_sealed_epoch(
    raw: EpochState,
    constants: ImmutableState,
    block: Block,
    initial_epoch: u64,
    s: DescartesV2State,
)
    requires
        raw.current_phase matches ContractPhase::AwaitingConsensus {
            sealed_epoch: SealedEpochState::SealedEpochNoClaims { .. },
            ..
        },
        is_logical_state(s, raw, constants, block, initial_epoch),
    ensures
        raw.current_phase matches ContractPhase::AwaitingConsensus {
            sealed_epoch: SealedEpochState::SealedEpochNoClaims { sealed_epoch },
            ..
        } && s.current_phase == (PhaseState::EpochSealedAwaitingFirstClaim { sealed_epoch }),
        s.current_epoch == raw.current_epoch,
{
}

} // verus!
