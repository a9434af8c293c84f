use oracle_core::{
    encode_integer, encode_string, DatapointState, DatapointStateResolver, DepositAggregator,
    EpochStateResolver, PoolBoxState, PreparationStateResolver, ScanBox, StageClassifier,
};

fn plain_box(box_id: &str, value: u64) -> ScanBox {
    ScanBox {
        box_id: box_id.to_string(),
        value,
        registers: Vec::new(),
    }
}

fn epoch_box(box_id: &str, value: u64, latest: &str, ends: i64) -> ScanBox {
    ScanBox {
        box_id: box_id.to_string(),
        value,
        registers: vec![encode_string(latest), encode_integer(ends)],
    }
}

fn datapoint_box(box_id: &str, value: u64, from_epoch: &str, datapoint: i64) -> ScanBox {
    ScanBox {
        box_id: box_id.to_string(),
        value,
        registers: vec![
            encode_string("unused"),
            encode_string(from_epoch),
            encode_integer(datapoint),
        ],
    }
}

#[test]
fn classify_preparation_when_scan_nonempty() {
    let boxes = vec![plain_box("p1", 1)];
    assert_eq!(StageClassifier::classify(&boxes), PoolBoxState::Preparation);
}

#[test]
fn classify_epoch_when_scan_empty() {
    assert_eq!(StageClassifier::classify(&Vec::new()), PoolBoxState::Epoch);
}

#[test]
fn aggregate_empty_scan_is_zero_state() {
    let state = DepositAggregator::aggregate(&Vec::new());
    assert_eq!(state.number_of_boxes, 0);
    assert_eq!(state.total_ergs, 0);
}

#[test]
fn aggregate_sums_exactly() {
    let boxes = vec![plain_box("d1", 100), plain_box("d2", 250)];
    let state = DepositAggregator::aggregate(&boxes);
    assert_eq!(state.number_of_boxes, 2);
    assert_eq!(state.total_ergs, 350);
}

#[test]
fn aggregate_is_order_independent() {
    let forward = vec![plain_box("d1", 100), plain_box("d2", 250), plain_box("d3", 7)];
    let backward = vec![plain_box("d3", 7), plain_box("d2", 250), plain_box("d1", 100)];
    assert_eq!(
        DepositAggregator::aggregate(&forward),
        DepositAggregator::aggregate(&backward)
    );
}

#[test]
fn epoch_resolve_empty_scan_is_none() {
    assert!(EpochStateResolver::resolve(&Vec::new(), &None).is_none());
}

#[test]
fn epoch_resolve_commit_when_datapoint_references_epoch() {
    let boxes = vec![epoch_box("E1", 1_000_000, "1.2345", 500)];
    let local = Some(DatapointState {
        datapoint: 12345,
        from_epoch: "E1".to_string(),
    });
    let state = EpochStateResolver::resolve(&boxes, &local).unwrap();
    assert!(state.commit_datapoint_in_epoch);
    assert_eq!(state.epoch_ends, 500);
    assert_eq!(state.latest_pool_datapoint, "1.2345");
    assert_eq!(state.epoch_id, "E1");
    assert_eq!(state.funds, 1_000_000);
}

#[test]
fn epoch_resolve_no_commit_when_datapoint_references_other_epoch() {
    let boxes = vec![epoch_box("E1", 1_000_000, "1.2345", 500)];
    let local = Some(DatapointState {
        datapoint: 12345,
        from_epoch: "E0".to_string(),
    });
    let state = EpochStateResolver::resolve(&boxes, &local).unwrap();
    assert!(!state.commit_datapoint_in_epoch);
}

#[test]
fn epoch_resolve_no_commit_without_local_datapoint() {
    let boxes = vec![epoch_box("E1", 1_000_000, "1.2345", 500)];
    let state = EpochStateResolver::resolve(&boxes, &None).unwrap();
    assert!(!state.commit_datapoint_in_epoch);
}

#[test]
fn epoch_resolve_first_box_wins() {
    let boxes = vec![
        epoch_box("E1", 10, "1.0", 500),
        epoch_box("E2", 20, "2.0", 600),
    ];
    let state = EpochStateResolver::resolve(&boxes, &None).unwrap();
    assert_eq!(state.epoch_id, "E1");
    assert_eq!(state.epoch_ends, 500);
}

#[test]
fn epoch_resolve_rejects_missing_registers() {
    let boxes = vec![plain_box("E1", 10)];
    assert!(EpochStateResolver::resolve(&boxes, &None).is_none());
}

#[test]
fn epoch_resolve_rejects_mistyped_registers() {
    // Registers swapped: integer where the string belongs and vice versa.
    let swapped = ScanBox {
        box_id: "E1".to_string(),
        value: 10,
        registers: vec![encode_integer(500), encode_string("1.2345")],
    };
    assert!(EpochStateResolver::resolve(&vec![swapped], &None).is_none());
}

#[test]
fn epoch_resolve_rejects_negative_epoch_end() {
    let boxes = vec![epoch_box("E1", 10, "1.2345", -500)];
    assert!(EpochStateResolver::resolve(&boxes, &None).is_none());
}

#[test]
fn preparation_resolve_empty_scan_is_none() {
    assert!(PreparationStateResolver::resolve(&Vec::new()).is_none());
}

#[test]
fn preparation_resolve_decodes_registers() {
    let boxes = vec![epoch_box("P1", 777, "0.5", 900)];
    let state = PreparationStateResolver::resolve(&boxes).unwrap();
    assert_eq!(state.funds, 777);
    assert_eq!(state.next_epoch_ends, 900);
    assert_eq!(state.latest_pool_datapoint, "0.5");
}

#[test]
fn preparation_resolve_rejects_missing_registers() {
    let boxes = vec![plain_box("P1", 777)];
    assert!(PreparationStateResolver::resolve(&boxes).is_none());
}

#[test]
fn datapoint_resolve_empty_scan_is_none() {
    assert!(DatapointStateResolver::resolve(&Vec::new()).is_none());
}

#[test]
fn datapoint_resolve_decodes_registers() {
    let boxes = vec![datapoint_box("D1", 1, "E1", 12345)];
    let state = DatapointStateResolver::resolve(&boxes).unwrap();
    assert_eq!(state.datapoint, 12345);
    assert_eq!(state.from_epoch, "E1");
}

#[test]
fn datapoint_resolve_rejects_negative_datapoint() {
    // A negative decoded datapoint is a failure, never truncated to unsigned.
    let boxes = vec![datapoint_box("D1", 1, "E1", -12345)];
    assert!(DatapointStateResolver::resolve(&boxes).is_none());
}

#[test]
fn datapoint_resolve_rejects_missing_registers() {
    let short = ScanBox {
        box_id: "D1".to_string(),
        value: 1,
        registers: vec![encode_string("unused"), encode_string("E1")],
    };
    assert!(DatapointStateResolver::resolve(&vec![short]).is_none());
}
