//! Tests for the single-line JSON rendering and the line-integrity
//! guarantees of the emitter and the reporter.

use backfill_filter::counters::{render_done_line, render_progress_line};
use backfill_filter::emitter::emit_line;
use backfill_filter::record::OutputRecord;

fn rec(signature: &str, slot: u64, block_time: Option<i64>, logs: Vec<&str>) -> OutputRecord {
    OutputRecord {
        signature: signature.to_string(),
        slot,
        block_time,
        logs: logs.into_iter().map(|l| l.to_string()).collect(),
    }
}

#[test]
fn plain_record_renders_exactly() {
    let line = emit_line(&rec("sig", 42, Some(99), vec!["a", "b"]));
    assert_eq!(
        String::from_utf8(line).unwrap(),
        "{\"signature\":\"sig\",\"slot\":42,\"blockTime\":99,\"logs\":[\"a\",\"b\"]}\n"
    );
}

#[test]
fn absent_block_time_renders_null() {
    let line = emit_line(&rec("s", 0, None, vec![]));
    assert_eq!(
        String::from_utf8(line).unwrap(),
        "{\"signature\":\"s\",\"slot\":0,\"blockTime\":null,\"logs\":[]}\n"
    );
}

#[test]
fn negative_and_extreme_numbers_render() {
    let line = emit_line(&rec("s", u64::MAX, Some(i64::MIN), vec![]));
    assert_eq!(
        String::from_utf8(line).unwrap(),
        "{\"signature\":\"s\",\"slot\":18446744073709551615,\"blockTime\":-9223372036854775808,\"logs\":[]}\n"
    );
    let line = emit_line(&rec("s", 7, Some(-1), vec![]));
    assert_eq!(
        String::from_utf8(line).unwrap(),
        "{\"signature\":\"s\",\"slot\":7,\"blockTime\":-1,\"logs\":[]}\n"
    );
}

#[test]
fn string_content_is_escaped() {
    let line = emit_line(&rec("s", 1, None, vec!["say \"hi\"\\", "tab\there", "line\nbreak", "ctl\u{1}"]));
    let text = String::from_utf8(line).unwrap();
    assert_eq!(
        text,
        "{\"signature\":\"s\",\"slot\":1,\"blockTime\":null,\"logs\":[\"say \\\"hi\\\"\\\\\",\"tab\\there\",\"line\\nbreak\",\"ctl\\u0001\"]}\n"
    );
}

#[test]
fn rendered_line_parses_as_json_and_round_trips_fields() {
    let line = emit_line(&rec(
        "5VERYSIG",
        123,
        None,
        vec!["Program log: invoke", "weird \u{8}\u{c}\r chars", "ünïcode ✓"],
    ));
    let text = String::from_utf8(line).unwrap();
    assert!(text.ends_with('\n'));
    let v: serde_json::Value = serde_json::from_str(text.trim_end()).unwrap();
    assert_eq!(v["signature"], "5VERYSIG");
    assert_eq!(v["slot"], 123);
    assert!(v["blockTime"].is_null());
    assert_eq!(v["logs"][0], "Program log: invoke");
    assert_eq!(v["logs"][1], "weird \u{8}\u{c}\r chars");
    assert_eq!(v["logs"][2], "ünïcode ✓");
}

#[test]
fn stream_of_lines_splits_into_one_unit_per_emit() {
    let records = vec![
        rec("a", 1, None, vec!["with\nnewline"]),
        rec("b", 2, Some(5), vec![]),
        rec("c", 3, None, vec!["x", "y", "z"]),
    ];
    let mut stream: Vec<u8> = Vec::new();
    for r in &records {
        stream.extend_from_slice(&emit_line(r));
    }
    let text = String::from_utf8(stream).unwrap();
    assert!(text.ends_with('\n'));
    let lines: Vec<&str> = text.trim_end_matches('\n').split('\n').collect();
    assert_eq!(lines.len(), records.len());
    for (line, r) in lines.iter().zip(&records) {
        let v: serde_json::Value = serde_json::from_str(line).unwrap();
        assert_eq!(v["signature"], r.signature.as_str());
        assert_eq!(v["slot"], r.slot);
        assert_eq!(v["logs"].as_array().unwrap().len(), r.logs.len());
    }
}

#[test]
fn progress_line_renders_exactly() {
    let line = render_progress_line(100000, 5, 421337);
    assert_eq!(
        String::from_utf8(line).unwrap(),
        "PROGRESS:{\"processed\":100000,\"matched\":5,\"currentSlot\":421337}\n"
    );
}

#[test]
fn done_line_renders_exactly() {
    assert_eq!(
        String::from_utf8(render_done_line()).unwrap(),
        "DONE:{\"status\":\"completed\"}\n"
    );
}
