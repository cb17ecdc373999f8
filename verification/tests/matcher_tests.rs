//! Tests for target construction and the three-stage matcher.

use backfill_filter::matcher::FilterTarget;
use backfill_filter::record::TransactionRecord;

/// 32 one-characters: the base58 encoding of 32 zero bytes.
fn zero_id() -> String {
    "1".repeat(32)
}

fn record(
    is_vote: bool,
    keys: Vec<Vec<u8>>,
    logs: Vec<&str>,
) -> TransactionRecord {
    TransactionRecord {
        signature: "5VERYSIGNATURE".to_string(),
        slot: 1234,
        block_time: Some(1_700_000_000),
        is_vote,
        account_keys: keys,
        logs: logs.into_iter().map(|l| l.to_string()).collect(),
    }
}

#[test]
fn target_decodes_to_32_zero_bytes() {
    let t = FilterTarget::new(&zero_id()).expect("valid program id");
    assert_eq!(t.bytes().as_slice(), &[0u8; 32][..]);
    assert_eq!(t.text().as_str(), zero_id());
}

#[test]
fn target_rejects_malformed_text() {
    // '0' is not in the base58 alphabet.
    assert!(FilterTarget::new("0OIl").is_none());
}

#[test]
fn target_rejects_wrong_width() {
    // Decodes fine, but to far fewer than 32 bytes.
    assert!(FilterTarget::new("abc").is_none());
    // 31 and 33 zero bytes.
    assert!(FilterTarget::new(&"1".repeat(31)).is_none());
    assert!(FilterTarget::new(&"1".repeat(33)).is_none());
}

#[test]
fn vote_record_rejected_regardless_of_other_fields() {
    let t = FilterTarget::new(&zero_id()).unwrap();
    let r = record(
        true,
        vec![vec![0u8; 32]],
        vec!["Program log: invoke", "Program 11111111111111111111111111111111: success"],
    );
    assert!(!t.matches(&r));
}

#[test]
fn unreferenced_target_rejected() {
    let t = FilterTarget::new(&zero_id()).unwrap();
    let r = record(
        false,
        vec![vec![7u8; 32], vec![9u8; 32]],
        vec!["Program 11111111111111111111111111111111: success"],
    );
    assert!(!t.matches(&r));
}

#[test]
fn empty_logs_rejected_even_with_referenced_target() {
    let t = FilterTarget::new(&zero_id()).unwrap();
    let r = record(false, vec![vec![0u8; 32]], vec![]);
    assert!(!t.matches(&r));
}

#[test]
fn logs_without_target_text_rejected() {
    let t = FilterTarget::new(&zero_id()).unwrap();
    let r = record(
        false,
        vec![vec![0u8; 32]],
        vec!["Program log: invoke", "Program SomethingElse: success"],
    );
    assert!(!t.matches(&r));
}

#[test]
fn full_match_accepted() {
    let t = FilterTarget::new(&zero_id()).unwrap();
    let r = record(
        false,
        vec![vec![3u8; 32], vec![0u8; 32]],
        vec!["Program log: invoke", "Program 11111111111111111111111111111111: success"],
    );
    assert!(t.matches(&r));
}

#[test]
fn matcher_is_idempotent() {
    let t = FilterTarget::new(&zero_id()).unwrap();
    let accept = record(
        false,
        vec![vec![0u8; 32]],
        vec!["Program 11111111111111111111111111111111: ok"],
    );
    let reject = record(true, vec![vec![0u8; 32]], vec!["x"]);
    assert_eq!(t.matches(&accept), t.matches(&accept));
    assert_eq!(t.matches(&reject), t.matches(&reject));
    assert!(t.matches(&accept));
    assert!(!t.matches(&reject));
}

#[test]
fn target_text_is_reencoded_not_copied() {
    // A nontrivial 32-byte value: its base58 text differs from its input
    // spelling only if encode really ran; decode of the text must give the
    // bytes back.
    let id = "11111111111111111111111111111112"; // 31 zero bytes then 0x01
    let t = FilterTarget::new(id).expect("valid program id");
    let mut expect = vec![0u8; 32];
    expect[31] = 1;
    assert_eq!(t.bytes().as_slice(), expect.as_slice());
    assert_eq!(t.text().as_str(), id);
    // The text is the needle: a log mentioning it matches.
    let r = record(false, vec![expect.clone()], vec!["Program 11111111111111111111111111111112 ok"]);
    assert!(t.matches(&r));
}

#[test]
fn substring_must_be_contiguous() {
    let t = FilterTarget::new(&zero_id()).unwrap();
    // 31 ones, then an interloper, then one more: never 32 contiguous ones.
    let broken = format!("{}x1", "1".repeat(31));
    let r = record(false, vec![vec![0u8; 32]], vec![&broken]);
    assert!(!t.matches(&r));
}
