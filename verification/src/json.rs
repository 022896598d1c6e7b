//! Verified construction of JSON text: decimal numbers and escaped string
//! literals, appended to a character buffer. The listing cache serializes
//! course groups through these builders.

use vstd::prelude::*;
use vstd::string::StrSliceExecFns;

verus! {

use crate::fingerprint::{hex_digit, hex_digit_char};

/// Decimal digits of a natural number, most significant first.
pub open spec fn dec_nat(n: nat) -> Seq<char>
    decreases n,
{
    if n < 10 {
        seq![hex_digit(n as u8)]
    } else {
        dec_nat(n / 10) + seq![hex_digit((n % 10) as u8)]
    }
}

/// Decimal rendering of an integer, with a leading minus sign if negative.
pub open spec fn dec_int(n: int) -> Seq<char> {
    if n < 0 {
        seq!['-'] + dec_nat((-n) as nat)
    } else {
        dec_nat(n as nat)
    }
}

/// The JSON escape of one character.
pub open spec fn esc_char(c: char) -> Seq<char> {
    if c == '"' {
        seq!['\\', '"']
    } else if c == '\\' {
        seq!['\\', '\\']
    } else if c == '\n' {
        seq!['\\', 'n']
    } else if c == '\r' {
        seq!['\\', 'r']
    } else if c == '\t' {
        seq!['\\', 't']
    } else if (c as u32) < 32 {
        seq!['\\', 'u', '0', '0', hex_digit((c as u32 / 16) as u8), hex_digit((c as u32 % 16) as u8)]
    } else {
        seq![c]
    }
}

/// The JSON escape of a string's characters.
pub open spec fn esc(s: Seq<char>) -> Seq<char>
    decreases s.len(),
{
    if s.len() == 0 {
        Seq::empty()
    } else {
        esc(s.drop_last()) + esc_char(s.last())
    }
}

/// A JSON string literal: the escaped characters between double quotes.
pub open spec fn jstr(s: Seq<char>) -> Seq<char> {
    seq!['"'] + esc(s) + seq!['"']
}

/// Appends a string's characters to the buffer unchanged.
pub fn push_str_chars(buf: &mut Vec<char>, s: &str)
    ensures
        final(buf)@ == old(buf)@ + s@,
{
    let n = s.unicode_len();
    let mut i: usize = 0;
    while i < n
        invariant
            i <= n,
            n == s@.len(),
            buf@ == old(buf)@ + s@.take(i as int),
        decreases n - i,
    {
        let c = s.get_char(i);
        buf.push(c);
        proof {
            assert(buf@ =~= old(buf)@ + s@.take(i + 1));
        }
        i = i + 1;
    }
    proof {
        assert(s@.take(n as int) =~= s@);
    }
}

/// Appends the decimal digits of a number to the buffer.
pub fn push_dec_u64(buf: &mut Vec<char>, n: u64)
    ensures
        final(buf)@ == old(buf)@ + dec_nat(n as nat),
    decreases n,
{
    if n < 10 {
        buf.push((48 + n as u8) as char);
        proof {
            assert(buf@ =~= old(buf)@ + dec_nat(n as nat));
        }
    } else {
        push_dec_u64(buf, n / 10);
        buf.push((48 + (n % 10) as u8) as char);
        proof {
            assert(buf@ =~= old(buf)@ + dec_nat(n as nat));
        }
    }
}

/// Appends the decimal rendering of a signed integer to the buffer.
pub fn push_dec_i64(buf: &mut Vec<char>, n: i64)
    ensures
        final(buf)@ == old(buf)@ + dec_int(n as int),
{
    if n < 0 {
        buf.push('-');
        let m: u64 = if n == i64::MIN {
            9223372036854775808u64
        } else {
            (-n) as u64
        };
        push_dec_u64(buf, m);
        proof {
            assert(buf@ =~= old(buf)@ + dec_int(n as int));
        }
    } else {
        push_dec_u64(buf, n as u64);
    }
}

/// Appends the JSON escape of a string's characters to the buffer.
pub fn push_escaped(buf: &mut Vec<char>, s: &str)
    ensures
        final(buf)@ == old(buf)@ + esc(s@),
{
    let n = s.unicode_len();
    let mut i: usize = 0;
    while i < n
        invariant
            i <= n,
            n == s@.len(),
            buf@ == old(buf)@ + esc(s@.take(i as int)),
        decreases n - i,
    {
        let c = s.get_char(i);
        if c == '"' {
            buf.push('\\');
            buf.push('"');
        } else if c == '\\' {
            buf.push('\\');
            buf.push('\\');
        } else if c == '\n' {
            buf.push('\\');
            buf.push('n');
        } else if c == '\r' {
            buf.push('\\');
            buf.push('r');
        } else if c == '\t' {
            buf.push('\\');
            buf.push('t');
        } else if (c as u32) < 32 {
            let x = c as u32;
            buf.push('\\');
            buf.push('u');
            buf.push('0');
            buf.push('0');
            buf.push(hex_digit_char((x / 16) as u8));
            buf.push(hex_digit_char((x % 16) as u8));
        } else {
            buf.push(c);
        }
        proof {
            assert(s@.take(i + 1).drop_last() =~= s@.take(i as int));
            assert(s@.take(i + 1).last() == c);
            assert(esc(s@.take(i + 1)) == esc(s@.take(i as int)) + esc_char(c));
            assert(buf@ =~= old(buf)@ + esc(s@.take(i + 1)));
        }
        i = i + 1;
    }
    proof {
        assert(s@.take(n as int) =~= s@);
    }
}

/// Appends a JSON string literal for the given text to the buffer.
pub fn push_json_string(buf: &mut Vec<char>, s: &str)
    ensures
        final(buf)@ == old(buf)@ + jstr(s@),
{
    buf.push('"');
    push_escaped(buf, s);
    buf.push('"');
    proof {
        assert(buf@ =~= old(buf)@ + jstr(s@));
    }
}

/// Relies on String's FromIterator impl through Iterator::collect: the
/// string holding exactly these characters in order.
#[verifier::external_body]
pub(crate) fn chars_to_string(v: &Vec<char>) -> (r: String)
    ensures
        r@ == v@,
{
    v.iter().collect()
}

} // verus!
