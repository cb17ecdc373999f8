//! The data the pipeline consumes and produces: one decoded transaction
//! record per dispatch call, and the projection of a matched record onto
//! the fields that are emitted.

use vstd::prelude::*;
use vstd::utf8::encode_utf8;

verus! {

/// Mathematical view of one transaction record. Text fields are viewed as
/// their UTF-8 bytes, account keys as byte sequences.
pub struct RecordView {
    pub signature: Seq<u8>,
    pub slot: u64,
    pub block_time: Option<i64>,
    pub is_vote: bool,
    pub account_keys: Seq<Seq<u8>>,
    pub logs: Seq<Seq<u8>>,
}

/// One already-decoded transaction record, as handed over by the external
/// producer: globally unique signature, ledger position, optional block
/// timestamp, the consensus-vote flag, the referenced account keys, and the
/// ordered log lines produced during execution.
pub struct TransactionRecord {
    pub signature: String,
    pub slot: u64,
    pub block_time: Option<i64>,
    pub is_vote: bool,
    pub account_keys: Vec<Vec<u8>>,
    pub logs: Vec<String>,
}

impl View for TransactionRecord {
    type V = RecordView;

    open spec fn view(&self) -> RecordView {
        RecordView {
            signature: encode_utf8(self.signature@),
            slot: self.slot,
            block_time: self.block_time,
            is_vote: self.is_vote,
            account_keys: self.account_keys@.map_values(|k: Vec<u8>| k@),
            logs: self.logs@.map_values(|l: String| encode_utf8(l@)),
        }
    }
}

/// Mathematical view of an emitted record.
pub struct OutputView {
    pub signature: Seq<u8>,
    pub slot: u64,
    pub block_time: Option<i64>,
    pub logs: Seq<Seq<u8>>,
}

/// The emitted unit: a direct projection of a matched record's fields.
pub struct OutputRecord {
    pub signature: String,
    pub slot: u64,
    pub block_time: Option<i64>,
    pub logs: Vec<String>,
}

impl View for OutputRecord {
    type V = OutputView;

    open spec fn view(&self) -> OutputView {
        OutputView {
            signature: encode_utf8(self.signature@),
            slot: self.slot,
            block_time: self.block_time,
            logs: self.logs@.map_values(|l: String| encode_utf8(l@)),
        }
    }
}

/// What an emitted record must hold: exactly the record's own identifier,
/// position, timestamp and log lines, nothing else.
pub open spec fn projection(r: RecordView) -> OutputView {
    OutputView { signature: r.signature, slot: r.slot, block_time: r.block_time, logs: r.logs }
}

impl OutputRecord {
    /// Build the emitted unit from a matched record by direct field
    /// projection.
    pub fn from_record(r: &TransactionRecord) -> (o: OutputRecord)
        ensures
            o@ == projection(r@),
    {
        let mut logs: Vec<String> = Vec::new();
        let n: usize = r.logs.len();
        let mut i: usize = 0;
        while i < n
            invariant
                0 <= i <= n,
                n == r.logs@.len(),
                logs@.len() == i,
                forall|j: int| 0 <= j < i ==> logs@[j]@ == r.logs@[j]@,
            decreases n - i,
        {
            logs.push(r.logs[i].clone());
            i += 1;
        }
        let o = OutputRecord {
            signature: r.signature.clone(),
            slot: r.slot,
            block_time: r.block_time,
            logs,
        };
        proof {
            assert(o@.logs =~= r@.logs);
            assert(o@ == projection(r@));
        }
        o
    }
}

} // verus!
