//! The shared progress counters and the reporter: process-wide atomic
//! counters updated by every worker thread, the threshold rule that decides
//! when a progress line is due, and the rendering of the diagnostic lines.
//!
//! The atomic operations come from the standard library, whose fetch-add is
//! a single atomic read-modify-write: no concurrent increment is lost. The
//! verifier gives those operations no value semantics, so everything decided
//! from a counter value is factored into pure functions of that value, which
//! are verified exactly.

use std::sync::atomic::AtomicU64;
use std::sync::atomic::Ordering;
use vstd::prelude::*;
use crate::emitter::wf_line;
use crate::json::{
    dec_digits, lemma_dec_digits_newline_free, lemma_newline_free_concat, push_u64,
    NEWLINE,
};

verus! {

/// How many records between progress reports unless configured otherwise.
pub const DEFAULT_REPORT_THRESHOLD: u64 = 100000;

/// Process-wide counters: every record seen, every record matched, and the
/// most recently observed position (last write wins). Created once, never
/// reset, safe to update from any number of threads without locking.
pub struct ProgressCounters {
    processed: AtomicU64,
    matched: AtomicU64,
    last_position: AtomicU64,
}

impl ProgressCounters {
    /// Fresh counters, all zero.
    pub fn new() -> ProgressCounters {
        ProgressCounters {
            processed: AtomicU64::new(0),
            matched: AtomicU64::new(0),
            last_position: AtomicU64::new(0),
        }
    }

    /// Count one record as seen and store its position unconditionally —
    /// under contention the stored position is whichever thread's store
    /// lands last, not necessarily the maximum. Returns this call's
    /// post-increment total of records seen.
    pub fn record_seen(&self, position: u64) -> u64 {
        let before: u64 = self.processed.fetch_add(1, Ordering::Relaxed);
        self.last_position.store(position, Ordering::Relaxed);
        if before == u64::MAX {
            0
        } else {
            before + 1
        }
    }

    /// Count one record as matched; called only after a full match.
    pub fn record_matched(&self) {
        self.matched.fetch_add(1, Ordering::Relaxed);
    }

    /// The current matched total, as last observed.
    pub fn matched_snapshot(&self) -> u64 {
        self.matched.load(Ordering::Relaxed)
    }

    /// The most recently stored position, as last observed.
    pub fn position_snapshot(&self) -> u64 {
        self.last_position.load(Ordering::Relaxed)
    }

    /// The running total of records seen, as last observed.
    pub fn processed_snapshot(&self) -> u64 {
        self.processed.load(Ordering::Relaxed)
    }
}

/// A progress report is due exactly when the post-increment total is
/// strictly positive and a multiple of the threshold. A zero threshold
/// never reports.
pub open spec fn report_due(count: u64, threshold: u64) -> bool {
    count > 0 && threshold > 0 && count % threshold == 0
}

/// Decide whether the count that a `record_seen` call returned owes a
/// progress line.
pub fn should_report(count: u64, threshold: u64) -> (r: bool)
    ensures
        r == report_due(count, threshold),
{
    threshold > 0 && count > 0 && count % threshold == 0
}

/// `PROGRESS:{"processed":`
pub open spec fn progress_head() -> Seq<u8> {
    seq![0x50u8, 0x52u8, 0x4Fu8, 0x47u8, 0x52u8, 0x45u8, 0x53u8, 0x53u8, 0x3Au8, 0x7Bu8, 0x22u8,
        0x70u8, 0x72u8, 0x6Fu8, 0x63u8, 0x65u8, 0x73u8, 0x73u8, 0x65u8, 0x64u8, 0x22u8, 0x3Au8]
}

/// `,"matched":`
pub open spec fn matched_key() -> Seq<u8> {
    seq![0x2Cu8, 0x22u8, 0x6Du8, 0x61u8, 0x74u8, 0x63u8, 0x68u8, 0x65u8, 0x64u8, 0x22u8, 0x3Au8]
}

/// `,"currentSlot":`
pub open spec fn current_slot_key() -> Seq<u8> {
    seq![0x2Cu8, 0x22u8, 0x63u8, 0x75u8, 0x72u8, 0x72u8, 0x65u8, 0x6Eu8, 0x74u8, 0x53u8, 0x6Cu8,
        0x6Fu8, 0x74u8, 0x22u8, 0x3Au8]
}

/// One progress line: the three counter values at the moment of the
/// snapshot, rendered as a prefixed JSON object and one terminator.
pub open spec fn progress_line(processed: u64, matched: u64, slot: u64) -> Seq<u8> {
    progress_head() + dec_digits(processed as nat) + matched_key() + dec_digits(matched as nat)
        + current_slot_key() + dec_digits(slot as nat) + seq![0x7Du8, NEWLINE]
}

/// `DONE:{"status":"completed"}`
pub open spec fn done_text() -> Seq<u8> {
    seq![0x44u8, 0x4Fu8, 0x4Eu8, 0x45u8, 0x3Au8, 0x7Bu8, 0x22u8, 0x73u8, 0x74u8, 0x61u8, 0x74u8,
        0x75u8, 0x73u8, 0x22u8, 0x3Au8, 0x22u8, 0x63u8, 0x6Fu8, 0x6Du8, 0x70u8, 0x6Cu8, 0x65u8,
        0x74u8, 0x65u8, 0x64u8, 0x22u8, 0x7Du8]
}

/// The single terminal diagnostic line.
pub open spec fn done_line() -> Seq<u8> {
    done_text() + seq![NEWLINE]
}

/// Render one progress line for a snapshot of the three counters.
pub fn render_progress_line(processed: u64, matched: u64, slot: u64) -> (line: Vec<u8>)
    ensures
        line@ == progress_line(processed, matched, slot),
        wf_line(line@),
{
    let mut out: Vec<u8> = Vec::new();
    out.push(0x50u8);
    out.push(0x52u8);
    out.push(0x4Fu8);
    out.push(0x47u8);
    out.push(0x52u8);
    out.push(0x45u8);
    out.push(0x53u8);
    out.push(0x53u8);
    out.push(0x3Au8);
    out.push(0x7Bu8);
    out.push(0x22u8);
    out.push(0x70u8);
    out.push(0x72u8);
    out.push(0x6Fu8);
    out.push(0x63u8);
    out.push(0x65u8);
    out.push(0x73u8);
    out.push(0x73u8);
    out.push(0x65u8);
    out.push(0x64u8);
    out.push(0x22u8);
    out.push(0x3Au8);
    proof {
        assert(out@ =~= progress_head());
    }
    push_u64(&mut out, processed);
    out.push(0x2Cu8);
    out.push(0x22u8);
    out.push(0x6Du8);
    out.push(0x61u8);
    out.push(0x74u8);
    out.push(0x63u8);
    out.push(0x68u8);
    out.push(0x65u8);
    out.push(0x64u8);
    out.push(0x22u8);
    out.push(0x3Au8);
    proof {
        assert(out@ =~= progress_head() + dec_digits(processed as nat) + matched_key());
    }
    push_u64(&mut out, matched);
    out.push(0x2Cu8);
    out.push(0x22u8);
    out.push(0x63u8);
    out.push(0x75u8);
    out.push(0x72u8);
    out.push(0x72u8);
    out.push(0x65u8);
    out.push(0x6Eu8);
    out.push(0x74u8);
    out.push(0x53u8);
    out.push(0x6Cu8);
    out.push(0x6Fu8);
    out.push(0x74u8);
    out.push(0x22u8);
    out.push(0x3Au8);
    proof {
        assert(out@ =~= progress_head() + dec_digits(processed as nat) + matched_key()
            + dec_digits(matched as nat) + current_slot_key());
    }
    push_u64(&mut out, slot);
    out.push(0x7Du8);
    out.push(NEWLINE);
    proof {
        assert(out@ =~= progress_line(processed, matched, slot));
        lemma_progress_line_wf(processed, matched, slot);
    }
    out
}

/// Render the terminal diagnostic line.
pub fn render_done_line() -> (line: Vec<u8>)
    ensures
        line@ == done_line(),
        wf_line(line@),
{
    let mut out: Vec<u8> = Vec::new();
    out.push(0x44u8);
    out.push(0x4Fu8);
    out.push(0x4Eu8);
    out.push(0x45u8);
    out.push(0x3Au8);
    out.push(0x7Bu8);
    out.push(0x22u8);
    out.push(0x73u8);
    out.push(0x74u8);
    out.push(0x61u8);
    out.push(0x74u8);
    out.push(0x75u8);
    out.push(0x73u8);
    out.push(0x22u8);
    out.push(0x3Au8);
    out.push(0x22u8);
    out.push(0x63u8);
    out.push(0x6Fu8);
    out.push(0x6Du8);
    out.push(0x70u8);
    out.push(0x6Cu8);
    out.push(0x65u8);
    out.push(0x74u8);
    out.push(0x65u8);
    out.push(0x64u8);
    out.push(0x22u8);
    out.push(0x7Du8);
    out.push(NEWLINE);
    proof {
        assert(out@ =~= done_line());
        assert(done_line().drop_last() =~= done_text());
    }
    out
}

/// Every progress line is a well-formed line.
pub proof fn lemma_progress_line_wf(processed: u64, matched: u64, slot: u64)
    ensures
        wf_line(progress_line(processed, matched, slot)),
{
    lemma_dec_digits_newline_free(processed as nat);
    lemma_dec_digits_newline_free(matched as nat);
    lemma_dec_digits_newline_free(slot as nat);
    lemma_newline_free_concat(progress_head(), dec_digits(processed as nat));
    lemma_newline_free_concat(
        progress_head() + dec_digits(processed as nat),
        matched_key(),
    );
    lemma_newline_free_concat(
        progress_head() + dec_digits(processed as nat) + matched_key(),
        dec_digits(matched as nat),
    );
    lemma_newline_free_concat(
        progress_head() + dec_digits(processed as nat) + matched_key() + dec_digits(
            matched as nat,
        ),
        current_slot_key(),
    );
    lemma_newline_free_concat(
        progress_head() + dec_digits(processed as nat) + matched_key() + dec_digits(
            matched as nat,
        ) + current_slot_key(),
        dec_digits(slot as nat),
    );
    lemma_newline_free_concat(
        progress_head() + dec_digits(processed as nat) + matched_key() + dec_digits(
            matched as nat,
        ) + current_slot_key() + dec_digits(slot as nat),
        seq![0x7Du8],
    );
    assert(progress_line(processed, matched, slot).drop_last() =~= progress_head() + dec_digits(
        processed as nat,
    ) + matched_key() + dec_digits(matched as nat) + current_slot_key() + dec_digits(slot as nat)
        + seq![0x7Du8]);
}

} // verus!
