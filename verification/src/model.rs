//! The data model: the box as the scan provider reports it, the four stage
//! descriptors, and the typed state structures the resolvers produce.

use vstd::prelude::*;

verus! {

/// An integral amount of the ledger's currency, in its smallest unit.
pub type NanoErg = u64;

/// An integral chain height.
pub type BlockHeight = u64;

/// A box identifier; used to correlate a datapoint submission with the epoch
/// box it was submitted against.
pub type EpochID = String;

/// A UTXO-model ledger output as the scan provider reports it: its identifier,
/// the currency it carries, and its ordered register values. Each register is
/// an opaque encoded blob until passed through the register codec.
#[derive(Debug, Clone)]
pub struct ScanBox {
    pub box_id: EpochID,
    pub value: NanoErg,
    pub registers: Vec<Vec<u8>>,
}

/// Which stage box is currently present on-chain.
#[derive(Debug, Clone, PartialEq, Eq, Structural)]
pub enum PoolBoxState {
    Preparation,
    Epoch,
}

/// A `Stage` is defined by its contract address and its scan identifier.
#[derive(Debug, Clone)]
pub struct Stage {
    pub contract_address: String,
    pub scan_id: String,
}

/// The state of the oracle pool when it is in the live-epoch stage.
#[derive(Debug, Clone)]
pub struct EpochState {
    pub funds: NanoErg,
    pub epoch_id: EpochID,
    pub commit_datapoint_in_epoch: bool,
    pub epoch_ends: BlockHeight,
    pub latest_pool_datapoint: String,
}

/// The state of the oracle pool when it is in the epoch-preparation stage.
#[derive(Debug, Clone)]
pub struct PreparationState {
    pub funds: NanoErg,
    pub next_epoch_ends: BlockHeight,
    pub latest_pool_datapoint: String,
}

/// The state of the local oracle's own datapoint box.
#[derive(Debug, Clone)]
pub struct DatapointState {
    pub datapoint: u64,
    pub from_epoch: EpochID,
}

/// The current UTXO-set state of all of the pool-deposit boxes.
#[derive(Debug, Clone, PartialEq, Eq, Structural)]
pub struct PoolDepositsState {
    pub number_of_boxes: u64,
    pub total_ergs: u64,
}

/// Overarching struct which allows for acquiring the state of the whole
/// oracle-pool protocol. Immutable once constructed; every query is a pure
/// function of the scan results handed to it.
#[derive(Debug, Clone)]
pub struct OraclePool {
    /// Address of the local oracle running this core.
    pub local_oracle_address: String,
    /// Token ids identifying the pool and its participants.
    pub oracle_pool_nft: String,
    pub oracle_pool_participant_token: String,
    /// The four stage descriptors.
    pub epoch_preparation_stage: Stage,
    pub live_epoch_stage: Stage,
    pub datapoint_stage: Stage,
    pub pool_deposit_stage: Stage,
}

} // verus!
