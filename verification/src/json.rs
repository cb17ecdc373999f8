//! Verified rendering of the primitive JSON pieces the emitter needs:
//! escaped strings, decimal integers, and the guarantee that none of them
//! ever contains a raw line break.

use vstd::prelude::*;

verus! {

/// The line terminator of the output stream.
pub const NEWLINE: u8 = 0x0A;

/// Lower-case hexadecimal digit for a value below 16.
pub open spec fn hex_digit(d: int) -> u8 {
    if d < 10 {
        (0x30 + d) as u8
    } else {
        (0x57 + d) as u8
    }
}

/// JSON escape of one byte of string content. Bytes below 0x20 must be
/// escaped; the quote and the backslash as well; every other byte stands
/// for itself (multi-byte UTF-8 sequences pass through unchanged).
pub open spec fn escape_byte(b: u8) -> Seq<u8> {
    if b == 0x22 {  // "
        seq![0x5Cu8, 0x22u8]
    } else if b == 0x5C {  // backslash
        seq![0x5Cu8, 0x5Cu8]
    } else if b == 0x08 {
        seq![0x5Cu8, 0x62u8]  // \b
    } else if b == 0x09 {
        seq![0x5Cu8, 0x74u8]  // \t
    } else if b == 0x0A {
        seq![0x5Cu8, 0x6Eu8]  // \n
    } else if b == 0x0C {
        seq![0x5Cu8, 0x66u8]  // \f
    } else if b == 0x0D {
        seq![0x5Cu8, 0x72u8]  // \r
    } else if b < 0x20 {
        seq![0x5Cu8, 0x75u8, 0x30u8, 0x30u8, hex_digit(b as int / 16), hex_digit(b as int % 16)]
    } else {
        seq![b]
    }
}

/// JSON escape of a whole byte string, content only (no quotes).
pub open spec fn escaped(s: Seq<u8>) -> Seq<u8>
    decreases s.len(),
{
    if s.len() == 0 {
        Seq::empty()
    } else {
        escaped(s.drop_last()) + escape_byte(s.last())
    }
}

/// A JSON string token: quote, escaped content, quote.
pub open spec fn json_string_bytes(s: Seq<u8>) -> Seq<u8> {
    seq![0x22u8] + escaped(s) + seq![0x22u8]
}

/// Decimal digits of a nonnegative integer, most significant first.
pub open spec fn dec_digits(n: nat) -> Seq<u8>
    decreases n,
{
    if n < 10 {
        seq![(0x30 + n) as u8]
    } else {
        dec_digits(n / 10).push((0x30 + n % 10) as u8)
    }
}

/// Decimal rendering of a signed integer: a minus sign where negative.
pub open spec fn int_digits(v: int) -> Seq<u8> {
    if v >= 0 {
        dec_digits(v as nat)
    } else {
        seq![0x2Du8] + dec_digits((-v) as nat)
    }
}

/// No byte of `s` is the line terminator.
pub open spec fn newline_free(s: Seq<u8>) -> bool {
    forall|i: int| 0 <= i < s.len() ==> s[i] != NEWLINE
}

/// Append the JSON escape of `s` to `out`.
pub fn push_escaped(out: &mut Vec<u8>, s: &[u8])
    ensures
        final(out)@ == old(out)@ + escaped(s@),
{
    let n: usize = s.len();
    let mut i: usize = 0;
    while i < n
        invariant
            0 <= i <= n,
            n == s@.len(),
            out@ == old(out)@ + escaped(s@.take(i as int)),
        decreases n - i,
    {
        let b: u8 = s[i];
        if b == 0x22 {
            out.push(0x5C);
            out.push(0x22);
        } else if b == 0x5C {
            out.push(0x5C);
            out.push(0x5C);
        } else if b == 0x08 {
            out.push(0x5C);
            out.push(0x62);
        } else if b == 0x09 {
            out.push(0x5C);
            out.push(0x74);
        } else if b == 0x0A {
            out.push(0x5C);
            out.push(0x6E);
        } else if b == 0x0C {
            out.push(0x5C);
            out.push(0x66);
        } else if b == 0x0D {
            out.push(0x5C);
            out.push(0x72);
        } else if b < 0x20 {
            out.push(0x5C);
            out.push(0x75);
            out.push(0x30);
            out.push(0x30);
            out.push(0x30 + b / 16);
            let low: u8 = b % 16;
            if low < 10 {
                out.push(0x30 + low);
            } else {
                out.push(0x57 + low);
            }
        } else {
            out.push(b);
        }
        proof {
            assert(s@.take(i + 1).drop_last() =~= s@.take(i as int));
            assert(s@.take(i + 1).last() == s@[i as int]);
            assert(out@ == old(out)@ + escaped(s@.take(i + 1)));
        }
        i += 1;
    }
    proof {
        assert(s@.take(n as int) =~= s@);
    }
}

/// Append a complete JSON string token for `s` to `out`.
pub fn push_json_string(out: &mut Vec<u8>, s: &[u8])
    ensures
        final(out)@ == old(out)@ + json_string_bytes(s@),
{
    out.push(0x22);
    push_escaped(out, s);
    out.push(0x22);
    proof {
        assert(out@ =~= old(out)@ + json_string_bytes(s@));
    }
}

/// Append the decimal digits of `n` to `out`.
pub fn push_u64(out: &mut Vec<u8>, n: u64)
    ensures
        final(out)@ == old(out)@ + dec_digits(n as nat),
    decreases n,
{
    if n < 10 {
        out.push(0x30 + n as u8);
    } else {
        push_u64(out, n / 10);
        out.push(0x30 + (n % 10) as u8);
    }
}

/// Append the decimal rendering of `v`, sign included, to `out`.
pub fn push_i64(out: &mut Vec<u8>, v: i64)
    ensures
        final(out)@ == old(out)@ + int_digits(v as int),
{
    if v >= 0 {
        push_u64(out, v as u64);
    } else {
        out.push(0x2D);
        let abs: u64 = ((-(v + 1)) as u64) + 1;
        proof {
            assert(abs == -(v as int));
        }
        push_u64(out, abs);
        proof {
            assert(out@ =~= old(out)@ + int_digits(v as int));
        }
    }
}

/// The escape of a single byte never contains a line terminator.
proof fn lemma_escape_byte_newline_free(b: u8)
    ensures
        newline_free(escape_byte(b)),
{
}

/// Escaped string content never contains a line terminator.
pub proof fn lemma_escaped_newline_free(s: Seq<u8>)
    ensures
        newline_free(escaped(s)),
    decreases s.len(),
{
    if s.len() > 0 {
        lemma_escaped_newline_free(s.drop_last());
        lemma_escape_byte_newline_free(s.last());
    }
}

/// A JSON string token never contains a line terminator.
pub proof fn lemma_json_string_newline_free(s: Seq<u8>)
    ensures
        newline_free(json_string_bytes(s)),
{
    lemma_escaped_newline_free(s);
}

/// Decimal digits never contain a line terminator.
pub proof fn lemma_dec_digits_newline_free(n: nat)
    ensures
        newline_free(dec_digits(n)),
    decreases n,
{
    if n >= 10 {
        lemma_dec_digits_newline_free(n / 10);
    }
}

/// A signed decimal rendering never contains a line terminator.
pub proof fn lemma_int_digits_newline_free(v: int)
    ensures
        newline_free(int_digits(v)),
{
    if v >= 0 {
        lemma_dec_digits_newline_free(v as nat);
    } else {
        lemma_dec_digits_newline_free((-v) as nat);
    }
}

/// Concatenation preserves freedom from line terminators.
pub proof fn lemma_newline_free_concat(a: Seq<u8>, b: Seq<u8>)
    requires
        newline_free(a),
        newline_free(b),
    ensures
        newline_free(a + b),
{
    assert forall|i: int| 0 <= i < (a + b).len() implies (a + b)[i] != NEWLINE by {
        if i < a.len() {
            assert((a + b)[i] == a[i]);
        } else {
            assert((a + b)[i] == b[i - a.len()]);
        }
    }
}

} // verus!
