//! State-reconstruction layer for a UTXO-based oracle-pool protocol.
//!
//! The protocol keeps its state in a small set of stage boxes on-chain. This
//! crate classifies which stage the protocol is currently in and decodes each
//! stage box's registers into typed, validated state structures. Fetching the
//! boxes from a node is an external concern: every query here takes the scan
//! results as plain values and is a pure function of them.

pub mod codec;
pub mod model;
pub mod pool;
pub mod resolvers;

pub use codec::{decode_integer, decode_string, encode_integer, encode_string};
pub use model::{
    BlockHeight, DatapointState, EpochID, EpochState, NanoErg, OraclePool, PoolBoxState,
    PoolDepositsState, PreparationState, ScanBox, Stage,
};
pub use resolvers::{
    DatapointStateResolver, DepositAggregator, EpochStateResolver, PreparationStateResolver,
    StageClassifier,
};
