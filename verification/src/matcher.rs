//! The matcher: the immutable filter target and the pure three-stage
//! relevance decision over one transaction record.

use vstd::prelude::*;
use vstd::utf8::encode_utf8;
use crate::base58::{base58_decode_of, base58_text_of, bs58_decode, bs58_encode};
use crate::bytes::{bytes_eq, contains_bytes, contains_subslice};
use crate::record::{RecordView, TransactionRecord};

verus! {

/// The number of bytes a decoded program identifier must have.
pub const TARGET_WIDTH: usize = 32;

/// Mathematical view of the filter target: the decoded bytes and the UTF-8
/// bytes of their human-readable encoding.
pub struct TargetView {
    pub bytes: Seq<u8>,
    pub text: Seq<u8>,
}

/// The program identifier of interest, decoded once at startup and immutable
/// afterwards. `bytes` is the fixed-width decoded value compared against
/// referenced account keys; `text` is its base58 encoding, searched for in
/// log lines.
pub struct FilterTarget {
    bytes: Vec<u8>,
    text: String,
}

impl View for FilterTarget {
    type V = TargetView;

    closed spec fn view(&self) -> TargetView {
        TargetView { bytes: self.bytes@, text: encode_utf8(self.text@) }
    }
}

/// A well-formed target: exactly the fixed width, with its text the base58
/// encoding of its bytes.
pub open spec fn target_wf(t: TargetView) -> bool {
    t.bytes.len() == TARGET_WIDTH && t.text == base58_text_of(t.bytes)
}

/// Some referenced account key equals the target bytes exactly.
pub open spec fn references_target(keys: Seq<Seq<u8>>, target_bytes: Seq<u8>) -> bool {
    exists|i: int| 0 <= i < keys.len() && keys[i] == target_bytes
}

/// Some log line contains the target's text encoding as a substring.
pub open spec fn log_mentions(logs: Seq<Seq<u8>>, text: Seq<u8>) -> bool {
    exists|i: int| 0 <= i < logs.len() && contains_bytes(logs[i], text)
}

/// The relevance decision: the conjunction of the three filter stages.
/// A consensus/voting record is never relevant; otherwise the record must
/// reference the target among its account keys, carry at least one log
/// line, and mention the target's text encoding in some log line.
pub open spec fn spec_matches(r: RecordView, t: TargetView) -> bool {
    &&& !r.is_vote
    &&& references_target(r.account_keys, t.bytes)
    &&& r.logs.len() > 0
    &&& log_mentions(r.logs, t.text)
}

impl FilterTarget {
    /// Decode the human-readable program identifier once, at startup.
    /// Succeeds exactly when the text decodes to a value of the fixed
    /// width; any other input is a configuration error.
    pub fn new(encoded: &str) -> (r: Option<FilterTarget>)
        ensures
            match r {
                Some(t) => target_wf(t@) && base58_decode_of(encoded@) == Some(t@.bytes),
                None => match base58_decode_of(encoded@) {
                    Some(v) => v.len() != TARGET_WIDTH,
                    None => true,
                },
            },
    {
        match bs58_decode(encoded) {
            Some(bytes) => {
                if bytes.len() == TARGET_WIDTH {
                    let text = bs58_encode(bytes.as_slice());
                    Some(FilterTarget { bytes, text })
                } else {
                    None
                }
            },
            None => None,
        }
    }

    /// The decoded target bytes.
    pub fn bytes(&self) -> (b: &Vec<u8>)
        ensures
            b@ == self@.bytes,
    {
        &self.bytes
    }

    /// The base58 text of the target.
    pub fn text(&self) -> (t: &String)
        ensures
            encode_utf8(t@) == self@.text,
    {
        &self.text
    }

    /// The matcher: a pure decision with no side effects — the result is a
    /// function of the record and the target alone.
    pub fn matches(&self, r: &TransactionRecord) -> (m: bool)
        ensures
            m == spec_matches(r@, self@),
    {
        if r.is_vote {
            return false;
        }
        if !self.references_account(r) {
            return false;
        }
        if r.logs.len() == 0 {
            return false;
        }
        self.some_log_mentions(r)
    }

    /// Stage two: exact byte comparison of each referenced account key
    /// against the target bytes.
    fn references_account(&self, r: &TransactionRecord) -> (found: bool)
        ensures
            found == references_target(r@.account_keys, self@.bytes),
    {
        let n: usize = r.account_keys.len();
        let mut i: usize = 0;
        while i < n
            invariant
                0 <= i <= n,
                n == r.account_keys@.len(),
                forall|j: int| 0 <= j < i ==> r@.account_keys[j] != self@.bytes,
            decreases n - i,
        {
            if bytes_eq(r.account_keys[i].as_slice(), self.bytes.as_slice()) {
                proof {
                    assert(r@.account_keys[i as int] == r.account_keys@[i as int]@);
                }
                return true;
            }
            i += 1;
        }
        false
    }

    /// Stage three: search each log line for the target's text encoding.
    fn some_log_mentions(&self, r: &TransactionRecord) -> (found: bool)
        ensures
            found == log_mentions(r@.logs, self@.text),
    {
        let needle: &str = self.text.as_str();
        let n: usize = r.logs.len();
        let mut i: usize = 0;
        while i < n
            invariant
                0 <= i <= n,
                n == r.logs@.len(),
                needle@ == self.text@,
                forall|j: int| 0 <= j < i ==> !contains_bytes(r@.logs[j], self@.text),
            decreases n - i,
        {
            if contains_subslice(r.logs[i].as_str().as_bytes(), needle.as_bytes()) {
                proof {
                    assert(r@.logs[i as int] == encode_utf8(r.logs@[i as int]@));
                }
                return true;
            }
            i += 1;
        }
        false
    }
}

/// Law: a consensus/voting record is rejected, whatever its other fields
/// hold.
pub proof fn lemma_vote_rejected(r: RecordView, t: TargetView)
    requires
        r.is_vote,
    ensures
        !spec_matches(r, t),
{
}

/// Law: a record whose referenced-account set does not contain the target
/// bytes is rejected.
pub proof fn lemma_unreferenced_rejected(r: RecordView, t: TargetView)
    requires
        !references_target(r.account_keys, t.bytes),
    ensures
        !spec_matches(r, t),
{
}

/// Law: a record with no log lines is rejected, even when its account set
/// contains the target.
pub proof fn lemma_no_logs_rejected(r: RecordView, t: TargetView)
    requires
        r.logs.len() == 0,
    ensures
        !spec_matches(r, t),
{
}

/// Law: a record whose log lines never contain the target's text encoding
/// is rejected, even when it passes the first two stages.
pub proof fn lemma_no_mention_rejected(r: RecordView, t: TargetView)
    requires
        !log_mentions(r.logs, t.text),
    ensures
        !spec_matches(r, t),
{
}

/// Law of idempotence: the decision is a pure function of the record and
/// the target, so any two decisions over the same pair are equal.
pub proof fn lemma_matcher_idempotent(r: RecordView, t: TargetView, first: bool, second: bool)
    requires
        first == spec_matches(r, t),
        second == spec_matches(r, t),
    ensures
        first == second,
{
}

} // verus!
