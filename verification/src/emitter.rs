//! The emitter: renders one matched record as a single self-contained JSON
//! line, and the line-integrity laws — a rendered line contains exactly one
//! line terminator, at its end, so a stream of whole-line writes splits back
//! into one complete line per emitted record.

use vstd::prelude::*;
use crate::json::{
    dec_digits, int_digits, json_string_bytes, lemma_dec_digits_newline_free,
    lemma_int_digits_newline_free, lemma_json_string_newline_free, lemma_newline_free_concat,
    newline_free, push_i64, push_json_string, push_u64, NEWLINE,
};
use crate::record::{OutputRecord, OutputView};

verus! {

/// `{"signature":`
pub open spec fn sig_key() -> Seq<u8> {
    seq![0x7Bu8, 0x22u8, 0x73u8, 0x69u8, 0x67u8, 0x6Eu8, 0x61u8, 0x74u8, 0x75u8, 0x72u8, 0x65u8, 0x22u8, 0x3Au8]
}

/// `,"slot":`
pub open spec fn slot_key() -> Seq<u8> {
    seq![0x2Cu8, 0x22u8, 0x73u8, 0x6Cu8, 0x6Fu8, 0x74u8, 0x22u8, 0x3Au8]
}

/// `,"blockTime":`
pub open spec fn block_time_key() -> Seq<u8> {
    seq![0x2Cu8, 0x22u8, 0x62u8, 0x6Cu8, 0x6Fu8, 0x63u8, 0x6Bu8, 0x54u8, 0x69u8, 0x6Du8, 0x65u8, 0x22u8, 0x3Au8]
}

/// `null`
pub open spec fn null_text() -> Seq<u8> {
    seq![0x6Eu8, 0x75u8, 0x6Cu8, 0x6Cu8]
}

/// `,"logs":[`
pub open spec fn logs_key() -> Seq<u8> {
    seq![0x2Cu8, 0x22u8, 0x6Cu8, 0x6Fu8, 0x67u8, 0x73u8, 0x22u8, 0x3Au8, 0x5Bu8]
}

/// `]}`
pub open spec fn obj_close() -> Seq<u8> {
    seq![0x5Du8, 0x7Du8]
}

/// The JSON value for an optional timestamp: its decimal digits, or `null`.
pub open spec fn opt_time_text(t: Option<i64>) -> Seq<u8> {
    match t {
        Some(v) => int_digits(v as int),
        None => null_text(),
    }
}

/// The body of the JSON array of log lines: string tokens joined by commas.
pub open spec fn logs_body(logs: Seq<Seq<u8>>) -> Seq<u8>
    decreases logs.len(),
{
    if logs.len() == 0 {
        Seq::empty()
    } else if logs.len() == 1 {
        json_string_bytes(logs[0])
    } else {
        logs_body(logs.drop_last()) + seq![0x2Cu8] + json_string_bytes(logs.last())
    }
}

/// The complete JSON object for one emitted record.
pub open spec fn output_json(o: OutputView) -> Seq<u8> {
    sig_key() + json_string_bytes(o.signature) + slot_key() + dec_digits(o.slot as nat)
        + block_time_key() + opt_time_text(o.block_time) + logs_key() + logs_body(o.logs)
        + obj_close()
}

/// The complete output line: the JSON object and its single terminator.
pub open spec fn output_line(o: OutputView) -> Seq<u8> {
    output_json(o) + seq![NEWLINE]
}

/// A well-formed line: nonempty, terminated by exactly one line terminator,
/// which stands at its end.
pub open spec fn wf_line(l: Seq<u8>) -> bool {
    l.len() >= 1 && l.last() == NEWLINE && newline_free(l.drop_last())
}

/// Render one matched record as a single self-contained line.
///
/// Serialization cannot fail: every byte of every field has a rendering,
/// so no record is ever silently dropped at this stage.
pub fn emit_line(o: &OutputRecord) -> (line: Vec<u8>)
    ensures
        line@ == output_line(o@),
        wf_line(line@),
{
    let mut out: Vec<u8> = Vec::new();
    push_sig_key(&mut out);
    push_json_string(&mut out, o.signature.as_str().as_bytes());
    push_slot_key(&mut out);
    push_u64(&mut out, o.slot);
    push_block_time_key(&mut out);
    match o.block_time {
        Some(t) => push_i64(&mut out, t),
        None => push_null(&mut out),
    }
    push_logs_key(&mut out);
    let ghost prefix = out@;
    let n: usize = o.logs.len();
    let mut i: usize = 0;
    while i < n
        invariant
            0 <= i <= n,
            n == o.logs@.len(),
            out@ == prefix + logs_body(o@.logs.take(i as int)),
        decreases n - i,
    {
        if i > 0 {
            out.push(0x2Cu8);
        }
        push_json_string(&mut out, o.logs[i].as_str().as_bytes());
        proof {
            let l = o@.logs;
            assert(l.take(i + 1).drop_last() =~= l.take(i as int));
            assert(l.take(i + 1).last() == l[i as int]);
            assert(l[i as int] == vstd::utf8::encode_utf8(o.logs@[i as int]@));
            assert(out@ =~= prefix + logs_body(l.take(i + 1)));
        }
        i += 1;
    }
    proof {
        assert(o@.logs.take(n as int) =~= o@.logs);
    }
    push_obj_close(&mut out);
    out.push(NEWLINE);
    proof {
        assert(out@ =~= output_line(o@));
        lemma_output_line_wf(o@);
    }
    out
}

fn push_sig_key(out: &mut Vec<u8>)
    ensures
        final(out)@ == old(out)@ + sig_key(),
{
    out.push(0x7Bu8);
    out.push(0x22u8);
    out.push(0x73u8);
    out.push(0x69u8);
    out.push(0x67u8);
    out.push(0x6Eu8);
    out.push(0x61u8);
    out.push(0x74u8);
    out.push(0x75u8);
    out.push(0x72u8);
    out.push(0x65u8);
    out.push(0x22u8);
    out.push(0x3Au8);
    proof {
        assert(out@ =~= old(out)@ + sig_key());
    }
}

fn push_slot_key(out: &mut Vec<u8>)
    ensures
        final(out)@ == old(out)@ + slot_key(),
{
    out.push(0x2Cu8);
    out.push(0x22u8);
    out.push(0x73u8);
    out.push(0x6Cu8);
    out.push(0x6Fu8);
    out.push(0x74u8);
    out.push(0x22u8);
    out.push(0x3Au8);
    proof {
        assert(out@ =~= old(out)@ + slot_key());
    }
}

fn push_block_time_key(out: &mut Vec<u8>)
    ensures
        final(out)@ == old(out)@ + block_time_key(),
{
    out.push(0x2Cu8);
    out.push(0x22u8);
    out.push(0x62u8);
    out.push(0x6Cu8);
    out.push(0x6Fu8);
    out.push(0x63u8);
    out.push(0x6Bu8);
    out.push(0x54u8);
    out.push(0x69u8);
    out.push(0x6Du8);
    out.push(0x65u8);
    out.push(0x22u8);
    out.push(0x3Au8);
    proof {
        assert(out@ =~= old(out)@ + block_time_key());
    }
}

fn push_null(out: &mut Vec<u8>)
    ensures
        final(out)@ == old(out)@ + null_text(),
{
    out.push(0x6Eu8);
    out.push(0x75u8);
    out.push(0x6Cu8);
    out.push(0x6Cu8);
    proof {
        assert(out@ =~= old(out)@ + null_text());
    }
}

fn push_logs_key(out: &mut Vec<u8>)
    ensures
        final(out)@ == old(out)@ + logs_key(),
{
    out.push(0x2Cu8);
    out.push(0x22u8);
    out.push(0x6Cu8);
    out.push(0x6Fu8);
    out.push(0x67u8);
    out.push(0x73u8);
    out.push(0x22u8);
    out.push(0x3Au8);
    out.push(0x5Bu8);
    proof {
        assert(out@ =~= old(out)@ + logs_key());
    }
}

fn push_obj_close(out: &mut Vec<u8>)
    ensures
        final(out)@ == old(out)@ + obj_close(),
{
    out.push(0x5Du8);
    out.push(0x7Du8);
    proof {
        assert(out@ =~= old(out)@ + obj_close());
    }
}

/// The log-array body never contains a line terminator.
proof fn lemma_logs_body_newline_free(logs: Seq<Seq<u8>>)
    ensures
        newline_free(logs_body(logs)),
    decreases logs.len(),
{
    if logs.len() == 0 {
    } else if logs.len() == 1 {
        lemma_json_string_newline_free(logs[0]);
    } else {
        lemma_logs_body_newline_free(logs.drop_last());
        lemma_json_string_newline_free(logs.last());
        lemma_newline_free_concat(logs_body(logs.drop_last()), seq![0x2Cu8]);
        lemma_newline_free_concat(
            logs_body(logs.drop_last()) + seq![0x2Cu8],
            json_string_bytes(logs.last()),
        );
    }
}

/// The rendered JSON object never contains a line terminator.
proof fn lemma_output_json_newline_free(o: OutputView)
    ensures
        newline_free(output_json(o)),
{
    lemma_json_string_newline_free(o.signature);
    lemma_dec_digits_newline_free(o.slot as nat);
    match o.block_time {
        Some(v) => lemma_int_digits_newline_free(v as int),
        None => {},
    }
    lemma_logs_body_newline_free(o.logs);
    lemma_newline_free_concat(sig_key(), json_string_bytes(o.signature));
    lemma_newline_free_concat(sig_key() + json_string_bytes(o.signature), slot_key());
    lemma_newline_free_concat(
        sig_key() + json_string_bytes(o.signature) + slot_key(),
        dec_digits(o.slot as nat),
    );
    lemma_newline_free_concat(
        sig_key() + json_string_bytes(o.signature) + slot_key() + dec_digits(o.slot as nat),
        block_time_key(),
    );
    lemma_newline_free_concat(
        sig_key() + json_string_bytes(o.signature) + slot_key() + dec_digits(o.slot as nat)
            + block_time_key(),
        opt_time_text(o.block_time),
    );
    lemma_newline_free_concat(
        sig_key() + json_string_bytes(o.signature) + slot_key() + dec_digits(o.slot as nat)
            + block_time_key() + opt_time_text(o.block_time),
        logs_key(),
    );
    lemma_newline_free_concat(
        sig_key() + json_string_bytes(o.signature) + slot_key() + dec_digits(o.slot as nat)
            + block_time_key() + opt_time_text(o.block_time) + logs_key(),
        logs_body(o.logs),
    );
    lemma_newline_free_concat(
        sig_key() + json_string_bytes(o.signature) + slot_key() + dec_digits(o.slot as nat)
            + block_time_key() + opt_time_text(o.block_time) + logs_key() + logs_body(o.logs),
        obj_close(),
    );
}

/// Every rendered output line is a well-formed line.
pub proof fn lemma_output_line_wf(o: OutputView)
    ensures
        wf_line(output_line(o)),
{
    lemma_output_json_newline_free(o);
    assert(output_line(o).drop_last() =~= output_json(o));
}

/// Occurrences of byte `b` in `s`.
pub open spec fn count_byte(s: Seq<u8>, b: u8) -> nat
    decreases s.len(),
{
    if s.len() == 0 {
        0
    } else {
        count_byte(s.drop_last(), b) + (if s.last() == b {
            1nat
        } else {
            0nat
        })
    }
}

/// The byte stream produced by a sequence of whole-line writes.
pub open spec fn concat_lines(lines: Seq<Seq<u8>>) -> Seq<u8>
    decreases lines.len(),
{
    if lines.len() == 0 {
        Seq::empty()
    } else {
        concat_lines(lines.drop_last()) + lines.last()
    }
}

/// Counting a byte distributes over concatenation.
proof fn lemma_count_byte_concat(a: Seq<u8>, c: Seq<u8>, b: u8)
    ensures
        count_byte(a + c, b) == count_byte(a, b) + count_byte(c, b),
    decreases c.len(),
{
    if c.len() == 0 {
        assert(a + c =~= a);
    } else {
        lemma_count_byte_concat(a, c.drop_last(), b);
        assert((a + c).drop_last() =~= a + c.drop_last());
        assert((a + c).last() == c.last());
    }
}

/// A sequence free of a byte contains zero occurrences of it.
proof fn lemma_newline_free_count(s: Seq<u8>)
    requires
        newline_free(s),
    ensures
        count_byte(s, NEWLINE) == 0,
    decreases s.len(),
{
    if s.len() > 0 {
        assert(newline_free(s.drop_last()));
        lemma_newline_free_count(s.drop_last());
    }
}

/// A well-formed line contains exactly one line terminator.
pub proof fn lemma_wf_line_count(l: Seq<u8>)
    requires
        wf_line(l),
    ensures
        count_byte(l, NEWLINE) == 1,
{
    lemma_newline_free_count(l.drop_last());
}

/// Law of emission exclusivity: when every write to the output stream is one
/// well-formed line, the stream splits at line terminators into exactly as
/// many lines as there were writes — no line is truncated and no two are
/// interleaved.
pub proof fn lemma_emission_exclusivity(lines: Seq<Seq<u8>>)
    requires
        forall|i: int| 0 <= i < lines.len() ==> wf_line(#[trigger] lines[i]),
    ensures
        count_byte(concat_lines(lines), NEWLINE) == lines.len(),
        lines.len() > 0 ==> concat_lines(lines).last() == NEWLINE,
    decreases lines.len(),
{
    if lines.len() > 0 {
        lemma_emission_exclusivity(lines.drop_last());
        lemma_wf_line_count(lines.last());
        lemma_count_byte_concat(concat_lines(lines.drop_last()), lines.last(), NEWLINE);
    }
}

} // verus!
