//! Tests for the dispatch callback, the counters, and the reporting
//! threshold.

use backfill_filter::counters::{ProgressCounters, DEFAULT_REPORT_THRESHOLD};
use backfill_filter::pipeline::Pipeline;
use backfill_filter::record::TransactionRecord;

fn zero_id() -> String {
    "1".repeat(32)
}

fn matching_record(slot: u64) -> TransactionRecord {
    TransactionRecord {
        signature: "SIGMATCH".to_string(),
        slot,
        block_time: None,
        is_vote: false,
        account_keys: vec![vec![0u8; 32]],
        logs: vec![
            "Program log: invoke".to_string(),
            "Program 11111111111111111111111111111111: success".to_string(),
        ],
    }
}

fn vote_record(slot: u64) -> TransactionRecord {
    TransactionRecord {
        signature: "SIGVOTE".to_string(),
        slot,
        block_time: None,
        is_vote: true,
        account_keys: vec![vec![0u8; 32]],
        logs: vec!["Program 11111111111111111111111111111111: success".to_string()],
    }
}

#[test]
fn pipeline_rejects_invalid_program_id() {
    assert!(Pipeline::new("not base58 !!!", DEFAULT_REPORT_THRESHOLD).is_none());
    assert!(Pipeline::new("abc", DEFAULT_REPORT_THRESHOLD).is_none());
}

#[test]
fn matched_record_emits_projection() {
    let p = Pipeline::new(&zero_id(), DEFAULT_REPORT_THRESHOLD).unwrap();
    let r = TransactionRecord {
        signature: "5sig".to_string(),
        slot: 77,
        block_time: Some(1_700_000_123),
        is_vote: false,
        account_keys: vec![vec![9u8; 32], vec![0u8; 32]],
        logs: vec![
            "Program log: invoke".to_string(),
            "Program 11111111111111111111111111111111: success".to_string(),
        ],
    };
    let o = p.process_record(&r);
    assert!(o.progress.is_none());
    let line = String::from_utf8(o.output.expect("record matches")).unwrap();
    assert_eq!(
        line,
        "{\"signature\":\"5sig\",\"slot\":77,\"blockTime\":1700000123,\"logs\":[\"Program log: invoke\",\"Program 11111111111111111111111111111111: success\"]}\n"
    );
    assert_eq!(p.counters().processed_snapshot(), 1);
    assert_eq!(p.counters().matched_snapshot(), 1);
    assert_eq!(p.counters().position_snapshot(), 77);
}

#[test]
fn vote_record_counts_but_does_not_emit() {
    let p = Pipeline::new(&zero_id(), DEFAULT_REPORT_THRESHOLD).unwrap();
    let o = p.process_record(&vote_record(5));
    assert!(o.output.is_none());
    assert!(o.progress.is_none());
    assert_eq!(p.counters().processed_snapshot(), 1);
    assert_eq!(p.counters().matched_snapshot(), 0);
    assert_eq!(p.counters().position_snapshot(), 5);
}

#[test]
fn counters_count_every_call_exactly_once() {
    let c = ProgressCounters::new();
    for i in 0..1000u64 {
        let count = c.record_seen(i);
        assert_eq!(count, i + 1);
    }
    assert_eq!(c.processed_snapshot(), 1000);
    assert_eq!(c.position_snapshot(), 999);
    assert_eq!(c.matched_snapshot(), 0);
    c.record_matched();
    c.record_matched();
    assert_eq!(c.matched_snapshot(), 2);
    assert_eq!(c.processed_snapshot(), 1000);
}

#[test]
fn threshold_call_emits_exactly_one_progress_line() {
    let p = Pipeline::new(&zero_id(), DEFAULT_REPORT_THRESHOLD).unwrap();
    // One matched record so the snapshot shows a nonzero matched counter.
    assert!(p.process_record(&matching_record(1)).output.is_some());
    let mut progress_lines: Vec<String> = Vec::new();
    for i in 2..=100_000u64 {
        let o = p.process_record(&vote_record(i));
        assert!(o.output.is_none());
        if let Some(line) = o.progress {
            assert_eq!(i, 100_000, "progress only at the threshold multiple");
            progress_lines.push(String::from_utf8(line).unwrap());
        }
    }
    assert_eq!(progress_lines.len(), 1);
    assert_eq!(
        progress_lines[0],
        "PROGRESS:{\"processed\":100000,\"matched\":1,\"currentSlot\":100000}\n"
    );
}

#[test]
fn small_threshold_reports_every_multiple() {
    let p = Pipeline::new(&zero_id(), 3).unwrap();
    let mut reported: Vec<u64> = Vec::new();
    for i in 1..=10u64 {
        if p.process_record(&vote_record(i)).progress.is_some() {
            reported.push(i);
        }
    }
    assert_eq!(reported, vec![3, 6, 9]);
}

#[test]
fn zero_threshold_never_reports() {
    let p = Pipeline::new(&zero_id(), 0).unwrap();
    for i in 1..=50u64 {
        assert!(p.process_record(&vote_record(i)).progress.is_none());
    }
}
