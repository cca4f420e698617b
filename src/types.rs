use vstd::prelude::*;

verus! {

/// A 20-byte account or contract address.
#[derive(Clone, Copy, Debug, PartialEq, Eq, Hash)]
pub struct Address {
    pub bytes: [u8; 20],
}

/// A 32-byte hash identifying a block (or a claimed machine state).
#[derive(Clone, Copy, Debug, PartialEq, Eq, Hash)]
pub struct BlockHash {
    pub bytes: [u8; 32],
}

impl View for BlockHash {
    type V = Seq<u8>;

    open spec fn view(&self) -> Seq<u8> {
        self.bytes@
    }
}

/// Compares two hashes byte by byte.
pub fn hash_eq(a: &BlockHash, b: &BlockHash) -> (r: bool)
    ensures
        r == (a@ == b@),
{
    let mut i: usize = 0;
    while i < 32
        invariant
            0 <= i <= 32,
            a@.len() == 32,
            b@.len() == 32,
            forall|j: int| 0 <= j < i ==> a@[j] == b@[j],
        decreases 32 - i,
    {
        if a.bytes[i] != b.bytes[i] {
            return false;
        }
        i = i + 1;
    }
    assert(a@ =~= b@);
    true
}

/// A point in the chain: `hash` keys the caches, `parent_hash` links it to its parent.
#[derive(Clone, Copy, Debug, PartialEq, Eq)]
pub struct Block {
    pub number: u64,
    pub hash: BlockHash,
    pub parent_hash: BlockHash,
    pub timestamp: u64,
}

/// The materialized accumulator `state` as observed at `block`.
#[derive(Clone, Debug, PartialEq, Eq)]
pub struct BlockState<T> {
    pub block: Block,
    pub state: T,
}

/// Constants fixed when the rollup contract was created.
#[derive(Clone, Copy, Debug, PartialEq, Eq)]
pub struct ImmutableState {
    pub input_duration: u64,
    pub challenge_period: u64,
    pub contract_creation_timestamp: u64,
    pub input_contract_address: Address,
    pub output_contract_address: Address,
    pub validator_contract_address: Address,
    pub dispute_contract_address: Address,
}

/// One input submitted to the input contract.
#[derive(Clone, Debug, PartialEq, Eq)]
pub struct Input {
    pub sender: Address,
    pub payload: Vec<u8>,
    pub timestamp: u64,
}

/// The epoch currently open for input submission.
#[derive(Clone, Debug, PartialEq, Eq)]
pub struct AccumulatingEpoch {
    pub epoch_number: u64,
    pub inputs: Vec<Input>,
}

impl AccumulatingEpoch {
    /// A freshly opened epoch, with no inputs yet.
    pub fn new(epoch_number: u64) -> (r: AccumulatingEpoch)
        ensures
            r.epoch_number == epoch_number,
            r.inputs@.len() == 0,
    {
        AccumulatingEpoch { epoch_number, inputs: Vec::new() }
    }
}

/// One validator's claim on the outcome of an epoch.
#[derive(Clone, Copy, Debug, PartialEq, Eq)]
pub struct Claim {
    pub claim: BlockHash,
    pub claimant: Address,
}

/// The claims made on a sealed epoch, with the time the first of them arrived.
#[derive(Clone, Debug, PartialEq, Eq)]
pub struct Claims {
    pub claims: Vec<Claim>,
    pub first_claim_timestamp: u64,
}

impl Claims {
    pub fn first_claim_timestamp(&self) -> (r: u64)
        ensures
            r == self.first_claim_timestamp,
    {
        self.first_claim_timestamp
    }
}

/// A sealed epoch on which at least one claim has been made.
#[derive(Clone, Debug, PartialEq, Eq)]
pub struct EpochWithClaims {
    pub epoch_number: u64,
    pub inputs: Vec<Input>,
    pub claims: Claims,
}

/// An epoch whose outcome has been settled on chain.
#[derive(Clone, Debug, PartialEq, Eq)]
pub struct FinalizedEpoch {
    pub epoch_number: u64,
    pub hash: BlockHash,
    pub inputs: Vec<Input>,
    pub finalized_block_hash: BlockHash,
    pub finalized_block_number: u64,
}

/// The finalized epochs, in order, starting at `initial_epoch`.
#[derive(Clone, Debug, PartialEq, Eq)]
pub struct FinalizedEpochs {
    pub finalized_epochs: Vec<FinalizedEpoch>,
    pub initial_epoch: u64,
}

/// Whether a claim has been made yet on the sealed epoch.
#[derive(Clone, Debug, PartialEq, Eq)]
pub enum SealedEpochState {
    SealedEpochNoClaims { sealed_epoch: AccumulatingEpoch },
    SealedEpochWithClaims { claimed_epoch: EpochWithClaims },
}

/// The phase the contract has last recorded.
#[derive(Clone, Debug, PartialEq, Eq)]
pub enum ContractPhase {
    InputAccumulation {},
    AwaitingConsensus { sealed_epoch: SealedEpochState, round_start: u64 },
    /// Disputes are resolved on chain in this deployment: the contract never
    /// enters this phase.
    AwaitingDispute { sealed_epoch: EpochWithClaims },
}

/// The contract state as literally recorded on chain.
#[derive(Clone, Debug, PartialEq, Eq)]
pub struct EpochState {
    pub current_phase: ContractPhase,
    pub initial_epoch: u64,
    pub finalized_epochs: FinalizedEpochs,
    pub current_epoch: AccumulatingEpoch,
    pub phase_change_timestamp: Option<u64>,
}

/// The phase the rollup is logically in at a block, elapsed time included.
#[derive(Clone, Debug, PartialEq, Eq)]
pub enum PhaseState {
    InputAccumulation {},
    EpochSealedAwaitingFirstClaim { sealed_epoch: AccumulatingEpoch },
    AwaitingConsensusNoConflict { claimed_epoch: EpochWithClaims },
    AwaitingConsensusAfterConflict { claimed_epoch: EpochWithClaims, challenge_period_base_ts: u64 },
    ConsensusTimeout { claimed_epoch: EpochWithClaims },
}

/// The logical rollup state handed to consumers.
#[derive(Clone, Debug, PartialEq, Eq)]
pub struct DescartesV2State {
    pub constants: ImmutableState,
    pub initial_epoch: u64,
    pub current_phase: PhaseState,
    pub finalized_epochs: FinalizedEpochs,
    pub current_epoch: AccumulatingEpoch,
}

} // verus!
