//! The dispatch callback: the one place where the matcher, the counters,
//! the reporter and the emitter are composed. Invoked once per record by
//! independent worker threads; each record is either fully skipped or fully
//! counted-and-emitted, with no partially applied state.

use vstd::prelude::*;
use crate::base58::base58_decode_of;
use crate::counters::{
    progress_line, render_progress_line, report_due, should_report, ProgressCounters,
};
use crate::emitter::{emit_line, output_line, wf_line};
use crate::matcher::{spec_matches, target_wf, FilterTarget, TargetView, TARGET_WIDTH};
use crate::record::{projection, OutputRecord, TransactionRecord};

verus! {

/// Mathematical view of the pipeline's immutable configuration.
pub struct PipelineView {
    pub target: TargetView,
    pub threshold: u64,
}

/// The concurrent filter-and-emit pipeline: the immutable filter target,
/// the shared counters, and the progress threshold. Shared by reference
/// across worker threads; the only mutable state is the counters, which
/// need no external locking.
pub struct Pipeline {
    target: FilterTarget,
    counters: ProgressCounters,
    threshold: u64,
}

impl View for Pipeline {
    type V = PipelineView;

    closed spec fn view(&self) -> PipelineView {
        PipelineView { target: self.target@, threshold: self.threshold }
    }
}

/// What one dispatch call asks its caller to write: at most one progress
/// line for the diagnostic stream, and the record's output line for the
/// primary stream when the record matched. Each is one complete line,
/// written as one atomic unit.
pub struct DispatchOutcome {
    pub progress: Option<Vec<u8>>,
    pub output: Option<Vec<u8>>,
}

impl Pipeline {
    /// Build the pipeline from the startup parameters: the human-readable
    /// program identifier and the progress threshold. Fails exactly when
    /// the identifier does not decode to a value of the fixed width — a
    /// fatal configuration error, after which no record is consumed.
    pub fn new(program_id: &str, threshold: u64) -> (r: Option<Pipeline>)
        ensures
            match r {
                Some(p) => p@.threshold == threshold && target_wf(p@.target)
                    && base58_decode_of(program_id@) == Some(p@.target.bytes),
                None => match base58_decode_of(program_id@) {
                    Some(v) => v.len() != TARGET_WIDTH,
                    None => true,
                },
            },
    {
        match FilterTarget::new(program_id) {
            Some(target) => Some(
                Pipeline { target, counters: ProgressCounters::new(), threshold },
            ),
            None => None,
        }
    }

    /// The pipeline's shared counters.
    pub fn counters(&self) -> &ProgressCounters {
        &self.counters
    }

    /// The dispatch callback body, run once per record: classify, count,
    /// check the reporting threshold, and render the output line when the
    /// record matched. An output line exists exactly when the record passes
    /// all three filter stages, and it is the record's own projection —
    /// never anything else. Every returned line is complete and carries its
    /// single terminator at its end.
    pub fn process_record(&self, r: &TransactionRecord) -> (o: DispatchOutcome)
        ensures
            o.output is Some <==> spec_matches(r@, self@.target),
            o.output matches Some(line) ==> line@ == output_line(projection(r@)) && wf_line(
                line@,
            ),
            o.progress matches Some(p) ==> wf_line(p@) && (exists|c: u64, m: u64, s: u64|
                report_due(c, self@.threshold) && p@ == progress_line(c, m, s)),
    {
        let relevant = self.target.matches(r);
        let count: u64 = self.counters.record_seen(r.slot);
        let progress = if should_report(count, self.threshold) {
            let matched: u64 = self.counters.matched_snapshot();
            let slot: u64 = self.counters.position_snapshot();
            let line = render_progress_line(count, matched, slot);
            proof {
                assert(report_due(count, self@.threshold) && line@ == progress_line(
                    count,
                    matched,
                    slot,
                ));
            }
            Some(line)
        } else {
            None
        };
        if relevant {
            self.counters.record_matched();
            let out = OutputRecord::from_record(r);
            DispatchOutcome { progress, output: Some(emit_line(&out)) }
        } else {
            DispatchOutcome { progress, output: None }
        }
    }
}

} // verus!
