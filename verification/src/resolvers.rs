//! The pure state-reconstruction logic: classifying the protocol's current
//! stage, decoding each stage box's registers into a typed state structure,
//! and folding the deposit boxes into a funding summary.
//!
//! Every function here is a pure function of the scan results it is handed.
//! Decoding is all-or-nothing: if any required register is missing or fails to
//! decode, the whole resolved structure is absent, never partially filled.

use crate::codec::{
    decode_integer, decode_string, int_register_value, is_int_register, is_str_register,
    str_register_chars,
};
use crate::model::{
    DatapointState, EpochState, PoolBoxState, PoolDepositsState, PreparationState, ScanBox,
};
use vstd::prelude::*;

verus! {

/// The classifier's verdict on a preparation scan: the presence of an
/// epoch-preparation box means the protocol is in the preparation stage,
/// otherwise it is in a live epoch.
pub open spec fn spec_classify(prep: Seq<ScanBox>) -> PoolBoxState {
    if prep.len() > 0 {
        PoolBoxState::Preparation
    } else {
        PoolBoxState::Epoch
    }
}

/// Determines which single stage the protocol is currently in from the boxes
/// the epoch-preparation scan returned.
pub struct StageClassifier {}

impl StageClassifier {
    /// A preparation scan with one or more boxes classifies as `Preparation`;
    /// otherwise the protocol is in a live epoch.
    pub fn classify(preparation_boxes: &Vec<ScanBox>) -> (r: PoolBoxState)
        ensures
            r == spec_classify(preparation_boxes@),
            r is Preparation <==> preparation_boxes@.len() > 0,
    {
        if preparation_boxes.len() > 0 {
            PoolBoxState::Preparation
        } else {
            PoolBoxState::Epoch
        }
    }
}

/// The exact sum of the currency carried by the boxes of a scan result.
pub open spec fn sum_values(boxes: Seq<ScanBox>) -> int
    decreases boxes.len(),
{
    if boxes.len() == 0 {
        0
    } else {
        sum_values(boxes.drop_last()) + boxes.last().value
    }
}

/// Extending a prefix by one box adds exactly that box's value to its sum.
proof fn lemma_sum_values_take_succ(boxes: Seq<ScanBox>, i: int)
    requires
        0 <= i < boxes.len(),
    ensures
        sum_values(boxes.take(i + 1)) == sum_values(boxes.take(i)) + boxes[i].value,
{
    assert(boxes.take(i + 1).drop_last() =~= boxes.take(i));
}

/// A prefix of a scan result never sums to more than the whole.
proof fn lemma_sum_values_take_le(boxes: Seq<ScanBox>, i: int)
    requires
        0 <= i <= boxes.len(),
    ensures
        sum_values(boxes.take(i)) <= sum_values(boxes),
    decreases boxes.len() - i,
{
    if i == boxes.len() {
        assert(boxes.take(i) =~= boxes);
    } else {
        lemma_sum_values_take_succ(boxes, i);
        lemma_sum_values_take_le(boxes, i + 1);
    }
}

/// Removing one box takes exactly that box's value off the sum.
proof fn lemma_sum_values_remove(boxes: Seq<ScanBox>, j: int)
    requires
        0 <= j < boxes.len(),
    ensures
        sum_values(boxes) == sum_values(boxes.remove(j)) + boxes[j].value,
    decreases boxes.len(),
{
    if j == boxes.len() - 1 {
        assert(boxes.remove(j) =~= boxes.drop_last());
    } else {
        lemma_sum_values_remove(boxes.drop_last(), j);
        assert(boxes.remove(j).drop_last() =~= boxes.drop_last().remove(j));
        assert(boxes.remove(j).last() == boxes.last());
    }
}

/// Law: the deposit total is order-independent. Two scan results holding the
/// same boxes, in whatever order, sum to the same total.
pub proof fn lemma_sum_values_permutation(s1: Seq<ScanBox>, s2: Seq<ScanBox>)
    requires
        s1.to_multiset() == s2.to_multiset(),
    ensures
        sum_values(s1) == sum_values(s2),
    decreases s1.len(),
{
    broadcast use vstd::seq_lib::group_to_multiset_ensures;

    if s1.len() == 0 {
        assert(s2.to_multiset().len() == 0);
    } else {
        let x = s1.last();
        assert(s1.remove(s1.len() - 1) =~= s1.drop_last());
        assert(s1.drop_last().to_multiset() =~= s1.to_multiset().remove(x));
        assert(s1.to_multiset().count(x) > 0);
        assert(s2.contains(x));
        let j = choose|j: int| 0 <= j < s2.len() && s2[j] == x;
        assert(s2.remove(j).to_multiset() =~= s2.to_multiset().remove(x));
        lemma_sum_values_permutation(s1.drop_last(), s2.remove(j));
        lemma_sum_values_remove(s2, j);
    }
}

/// Folds all current pool-deposit boxes into a funding summary.
pub struct DepositAggregator {}

impl DepositAggregator {
    /// A pure fold over the deposit scan: the box count and the exact sum of
    /// every box's value, with no filtering and no rounding. An empty scan is
    /// a valid zero state, not an absence.
    pub fn aggregate(deposit_boxes: &Vec<ScanBox>) -> (r: PoolDepositsState)
        requires
            sum_values(deposit_boxes@) <= u64::MAX,
        ensures
            r.number_of_boxes == deposit_boxes@.len(),
            r.total_ergs == sum_values(deposit_boxes@),
    {
        let n = deposit_boxes.len();
        let mut total: u64 = 0;
        let mut i: usize = 0;
        while i < n
            invariant
                n == deposit_boxes@.len(),
                0 <= i <= n,
                total == sum_values(deposit_boxes@.take(i as int)),
                sum_values(deposit_boxes@) <= u64::MAX,
            decreases n - i,
        {
            proof {
                lemma_sum_values_take_succ(deposit_boxes@, i as int);
                lemma_sum_values_take_le(deposit_boxes@, i + 1);
                lemma_sum_values_nonneg(deposit_boxes@.take(i as int + 1));
            }
            total = total + deposit_boxes[i].value;
            i = i + 1;
        }
        proof {
            assert(deposit_boxes@.take(n as int) =~= deposit_boxes@);
        }
        PoolDepositsState { number_of_boxes: n as u64, total_ergs: total }
    }
}

/// Box values are unsigned, so no scan result sums to a negative total.
proof fn lemma_sum_values_nonneg(boxes: Seq<ScanBox>)
    ensures
        sum_values(boxes) >= 0,
    decreases boxes.len(),
{
    if boxes.len() > 0 {
        lemma_sum_values_nonneg(boxes.drop_last());
    }
}

/// Whether the local datapoint state commits to the epoch with the given
/// identifier: true exactly when a local datapoint exists and references it.
pub open spec fn commits_in_epoch(dp: Option<DatapointState>, epoch_id: Seq<char>) -> bool {
    match dp {
        Some(d) => d.from_epoch@ == epoch_id,
        None => false,
    }
}

/// Whether a live-epoch box carries well-formed registers: register 0 holds
/// the latest pool datapoint (a string) and register 1 the height the epoch
/// ends at (a non-negative integer).
pub open spec fn epoch_box_decodes(b: ScanBox) -> bool {
    &&& b.registers@.len() >= 2
    &&& is_str_register(b.registers@[0]@)
    &&& is_int_register(b.registers@[1]@)
    &&& int_register_value(b.registers@[1]@) >= 0
}

/// Decodes the live-epoch box, together with the local datapoint state, into
/// a consistent `EpochState`.
pub struct EpochStateResolver {}

impl EpochStateResolver {
    /// Resolves the live-epoch scan. The first box is taken (the protocol
    /// guarantees at most one valid instance); its identifier is the epoch id,
    /// its value the pool's funds. Returns `None`, never a fabricated state,
    /// when no live-epoch box is present or a register fails to decode. The
    /// commitment flag is true exactly when the local datapoint references
    /// this epoch box's identifier.
    pub fn resolve(live_epoch_boxes: &Vec<ScanBox>, local_datapoint: &Option<DatapointState>) -> (r:
        Option<EpochState>)
        ensures
            r is Some <==> live_epoch_boxes@.len() > 0 && epoch_box_decodes(live_epoch_boxes@[0]),
            r matches Some(e) ==> ({
                let b = live_epoch_boxes@[0];
                &&& e.funds == b.value
                &&& e.epoch_id@ == b.box_id@
                &&& e.epoch_ends == int_register_value(b.registers@[1]@)
                &&& e.latest_pool_datapoint@ == str_register_chars(b.registers@[0]@)
                &&& e.commit_datapoint_in_epoch == commits_in_epoch(*local_datapoint, b.box_id@)
            }),
    {
        if live_epoch_boxes.len() == 0 {
            return None;
        }
        let epoch_box = &live_epoch_boxes[0];
        if epoch_box.registers.len() < 2 {
            return None;
        }
        let latest = decode_string(&epoch_box.registers[0]);
        let ends = decode_integer(&epoch_box.registers[1]);
        match (latest, ends) {
            (Some(latest_pool_datapoint), Some(ends_height)) => {
                if ends_height >= 0 {
                    let commit = match local_datapoint {
                        Some(d) => d.from_epoch == epoch_box.box_id,
                        None => false,
                    };
                    Some(
                        EpochState {
                            funds: epoch_box.value,
                            epoch_id: epoch_box.box_id.clone(),
                            commit_datapoint_in_epoch: commit,
                            epoch_ends: ends_height as u64,
                            latest_pool_datapoint,
                        },
                    )
                } else {
                    None
                }
            },
            _ => None,
        }
    }
}

/// Whether an epoch-preparation box carries well-formed registers: register 0
/// holds the latest pool datapoint (a string) and register 1 the height the
/// next epoch ends at (a non-negative integer).
pub open spec fn preparation_box_decodes(b: ScanBox) -> bool {
    &&& b.registers@.len() >= 2
    &&& is_str_register(b.registers@[0]@)
    &&& is_int_register(b.registers@[1]@)
    &&& int_register_value(b.registers@[1]@) >= 0
}

/// Decodes the epoch-preparation box into a `PreparationState`.
pub struct PreparationStateResolver {}

impl PreparationStateResolver {
    /// Resolves the epoch-preparation scan with the same first-box policy as
    /// the epoch resolver. Returns `None` when the scan yields no box or a
    /// register fails to decode.
    pub fn resolve(prep_boxes: &Vec<ScanBox>) -> (r: Option<PreparationState>)
        ensures
            r is Some <==> prep_boxes@.len() > 0 && preparation_box_decodes(prep_boxes@[0]),
            r matches Some(p) ==> ({
                let b = prep_boxes@[0];
                &&& p.funds == b.value
                &&& p.next_epoch_ends == int_register_value(b.registers@[1]@)
                &&& p.latest_pool_datapoint@ == str_register_chars(b.registers@[0]@)
            }),
    {
        if prep_boxes.len() == 0 {
            return None;
        }
        let prep_box = &prep_boxes[0];
        if prep_box.registers.len() < 2 {
            return None;
        }
        let latest = decode_string(&prep_box.registers[0]);
        let ends = decode_integer(&prep_box.registers[1]);
        match (latest, ends) {
            (Some(latest_pool_datapoint), Some(ends_height)) => {
                if ends_height >= 0 {
                    Some(
                        PreparationState {
                            funds: prep_box.value,
                            next_epoch_ends: ends_height as u64,
                            latest_pool_datapoint,
                        },
                    )
                } else {
                    None
                }
            },
            _ => None,
        }
    }
}

/// Whether the local oracle's datapoint box carries well-formed registers:
/// register 1 holds the identifier of the epoch box the datapoint was posted
/// against (a string) and register 2 the datapoint itself, which must decode
/// to a non-negative integer — a negative value is a decode failure, never
/// truncated into an unsigned datapoint.
pub open spec fn datapoint_box_decodes(b: ScanBox) -> bool {
    &&& b.registers@.len() >= 3
    &&& is_str_register(b.registers@[1]@)
    &&& is_int_register(b.registers@[2]@)
    &&& int_register_value(b.registers@[2]@) >= 0
}

/// Decodes the local oracle's own datapoint box into a `DatapointState`.
pub struct DatapointStateResolver {}

impl DatapointStateResolver {
    /// Resolves the datapoint scan, taking the first box (the participant
    /// token makes it unique by contract construction). Returns `None` when
    /// the scan is empty or any register fails to decode, including a
    /// datapoint register holding a negative integer.
    pub fn resolve(datapoint_boxes: &Vec<ScanBox>) -> (r: Option<DatapointState>)
        ensures
            r is Some <==> datapoint_boxes@.len() > 0 && datapoint_box_decodes(
                datapoint_boxes@[0],
            ),
            r matches Some(d) ==> ({
                let b = datapoint_boxes@[0];
                &&& d.datapoint == int_register_value(b.registers@[2]@)
                &&& d.from_epoch@ == str_register_chars(b.registers@[1]@)
            }),
    {
        if datapoint_boxes.len() == 0 {
            return None;
        }
        let datapoint_box = &datapoint_boxes[0];
        if datapoint_box.registers.len() < 3 {
            return None;
        }
        let from = decode_string(&datapoint_box.registers[1]);
        let value = decode_integer(&datapoint_box.registers[2]);
        match (from, value) {
            (Some(from_epoch), Some(datapoint)) => {
                if datapoint >= 0 {
                    Some(DatapointState { datapoint: datapoint as u64, from_epoch })
                } else {
                    None
                }
            },
            _ => None,
        }
    }
}

} // verus!
