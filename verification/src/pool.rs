//! The query facade: an immutable `OraclePool` value constructed once from
//! protocol configuration and persisted scan identifiers, exposing the
//! resolvers as one cohesive query surface.
//!
//! Fetching boxes from the node is owned by an external collaborator; each
//! query here takes that collaborator's answer as a plain value. `None` for a
//! whole scan signals a provider-level failure, distinct from an empty,
//! successful scan.

use crate::codec::{int_register_value, str_register_chars};
use crate::model::{
    DatapointState, EpochState, OraclePool, PoolBoxState, PoolDepositsState, PreparationState,
    ScanBox, Stage,
};
use crate::resolvers::{
    datapoint_box_decodes, epoch_box_decodes, preparation_box_decodes, spec_classify, sum_values,
    DatapointStateResolver, DepositAggregator, EpochStateResolver, PreparationStateResolver,
    StageClassifier,
};
use vstd::prelude::*;

verus! {

/// Whether a datapoint scan answer resolves to a local datapoint state.
pub open spec fn datapoint_scan_resolves(scan: Option<Vec<ScanBox>>) -> bool {
    match scan {
        Some(boxes) => boxes@.len() > 0 && datapoint_box_decodes(boxes@[0]),
        None => false,
    }
}

/// The epoch identifier the local datapoint commits to, for a scan answer
/// that resolves.
pub open spec fn datapoint_scan_from_epoch(scan: Option<Vec<ScanBox>>) -> Seq<char>
    recommends
        datapoint_scan_resolves(scan),
{
    match scan {
        Some(boxes) => str_register_chars(boxes@[0].registers@[1]@),
        None => Seq::empty(),
    }
}

impl OraclePool {
    /// Builds the facade from protocol configuration and the persisted scan
    /// identifiers: the local oracle's address, the two protocol-identifying
    /// token ids, and for each of the four stages its contract address and
    /// the scan identifier registered for it.
    pub fn new(
        local_oracle_address: String,
        oracle_pool_nft: String,
        oracle_pool_participant_token: String,
        epoch_preparation_contract_address: String,
        live_epoch_contract_address: String,
        datapoint_contract_address: String,
        pool_deposit_contract_address: String,
        epoch_preparation_scan_id: String,
        live_epoch_scan_id: String,
        datapoint_scan_id: String,
        pool_deposit_scan_id: String,
    ) -> (pool: OraclePool)
        ensures
            pool.local_oracle_address@ == local_oracle_address@,
            pool.oracle_pool_nft@ == oracle_pool_nft@,
            pool.oracle_pool_participant_token@ == oracle_pool_participant_token@,
            pool.epoch_preparation_stage.contract_address@ == epoch_preparation_contract_address@,
            pool.epoch_preparation_stage.scan_id@ == epoch_preparation_scan_id@,
            pool.live_epoch_stage.contract_address@ == live_epoch_contract_address@,
            pool.live_epoch_stage.scan_id@ == live_epoch_scan_id@,
            pool.datapoint_stage.contract_address@ == datapoint_contract_address@,
            pool.datapoint_stage.scan_id@ == datapoint_scan_id@,
            pool.pool_deposit_stage.contract_address@ == pool_deposit_contract_address@,
            pool.pool_deposit_stage.scan_id@ == pool_deposit_scan_id@,
    {
        OraclePool {
            local_oracle_address,
            oracle_pool_nft,
            oracle_pool_participant_token,
            epoch_preparation_stage: Stage {
                contract_address: epoch_preparation_contract_address,
                scan_id: epoch_preparation_scan_id,
            },
            live_epoch_stage: Stage {
                contract_address: live_epoch_contract_address,
                scan_id: live_epoch_scan_id,
            },
            datapoint_stage: Stage {
                contract_address: datapoint_contract_address,
                scan_id: datapoint_scan_id,
            },
            pool_deposit_stage: Stage {
                contract_address: pool_deposit_contract_address,
                scan_id: pool_deposit_scan_id,
            },
        }
    }

    /// The current stage of the oracle-pool box, from the answer of the
    /// epoch-preparation scan. A provider failure counts as "no preparation
    /// box" and classifies as `Epoch`; a caller needing a distinct "unknown"
    /// outcome inspects the raw scan answer itself.
    pub fn check_oracle_pool_stage(&self, preparation_scan: Option<Vec<ScanBox>>) -> (r:
        PoolBoxState)
        ensures
            r is Preparation <==> (preparation_scan matches Some(boxes) && boxes@.len() > 0),
            preparation_scan matches Some(boxes) ==> r == spec_classify(boxes@),
    {
        match preparation_scan {
            Some(boxes) => StageClassifier::classify(&boxes),
            None => PoolBoxState::Epoch,
        }
    }

    /// The state of the current oracle-pool epoch, from the answers of the
    /// live-epoch scan and the datapoint scan. `None` on a provider failure,
    /// when no live-epoch box is present, or when a register fails to decode;
    /// never a fabricated state.
    pub fn get_live_epoch_state(
        &self,
        live_epoch_scan: Option<Vec<ScanBox>>,
        datapoint_scan: Option<Vec<ScanBox>>,
    ) -> (r: Option<EpochState>)
        ensures
            r is Some <==> (live_epoch_scan matches Some(boxes) && boxes@.len() > 0
                && epoch_box_decodes(boxes@[0])),
            r matches Some(e) ==> (live_epoch_scan matches Some(boxes) && {
                let b = boxes@[0];
                &&& e.funds == b.value
                &&& e.epoch_id@ == b.box_id@
                &&& e.epoch_ends == int_register_value(b.registers@[1]@)
                &&& e.latest_pool_datapoint@ == str_register_chars(b.registers@[0]@)
                &&& e.commit_datapoint_in_epoch == (datapoint_scan_resolves(datapoint_scan)
                    && datapoint_scan_from_epoch(datapoint_scan) == b.box_id@)
            }),
    {
        match live_epoch_scan {
            Some(boxes) => {
                let local_datapoint = self.get_datapoint_state(datapoint_scan);
                EpochStateResolver::resolve(&boxes, &local_datapoint)
            },
            None => None,
        }
    }

    /// The state of the current epoch-preparation box, from the answer of the
    /// epoch-preparation scan. `None` on a provider failure, an empty scan,
    /// or a register that fails to decode.
    pub fn get_preparation_state(&self, preparation_scan: Option<Vec<ScanBox>>) -> (r: Option<
        PreparationState,
    >)
        ensures
            r is Some <==> (preparation_scan matches Some(boxes) && boxes@.len() > 0
                && preparation_box_decodes(boxes@[0])),
            r matches Some(p) ==> (preparation_scan matches Some(boxes) && {
                let b = boxes@[0];
                &&& p.funds == b.value
                &&& p.next_epoch_ends == int_register_value(b.registers@[1]@)
                &&& p.latest_pool_datapoint@ == str_register_chars(b.registers@[0]@)
            }),
    {
        match preparation_scan {
            Some(boxes) => PreparationStateResolver::resolve(&boxes),
            None => None,
        }
    }

    /// The current state of the local oracle's datapoint, from the answer of
    /// the datapoint scan. `None` on a provider failure, an empty scan, or a
    /// register that fails to decode.
    pub fn get_datapoint_state(&self, datapoint_scan: Option<Vec<ScanBox>>) -> (r: Option<
        DatapointState,
    >)
        ensures
            r is Some <==> datapoint_scan_resolves(datapoint_scan),
            r matches Some(d) ==> (datapoint_scan matches Some(boxes) && {
                let b = boxes@[0];
                &&& d.datapoint == int_register_value(b.registers@[2]@)
                &&& d.from_epoch@ == str_register_chars(b.registers@[1]@)
            }),
    {
        match datapoint_scan {
            Some(boxes) => DatapointStateResolver::resolve(&boxes),
            None => None,
        }
    }

    /// The current state of all pool-deposit boxes, from the answer of the
    /// pool-deposit scan: the box count and the exact sum of their values.
    /// `None` only on a provider failure; an empty scan is a valid zero
    /// state.
    pub fn get_pool_deposits_state(&self, deposit_scan: Option<Vec<ScanBox>>) -> (r: Option<
        PoolDepositsState,
    >)
        requires
            deposit_scan matches Some(boxes) ==> sum_values(boxes@) <= u64::MAX,
        ensures
            r is Some <==> deposit_scan is Some,
            r matches Some(d) ==> (deposit_scan matches Some(boxes) && d.number_of_boxes
                == boxes@.len() && d.total_ergs == sum_values(boxes@)),
    {
        match deposit_scan {
            Some(boxes) => Some(DepositAggregator::aggregate(&boxes)),
            None => None,
        }
    }
}

} // verus!
