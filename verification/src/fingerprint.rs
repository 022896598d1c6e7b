//! The fingerprint function: a deterministic digest of a serialized payload,
//! rendered as lowercase hex, used by the listing cache for cheap change
//! detection.

use sha3::Digest;
use vstd::prelude::*;
use vstd::string::StringSliceAdditionalSpecFns;

verus! {

/// The lowercase hex digit for a nibble.
pub open spec fn hex_digit(d: u8) -> char
    recommends
        d < 16,
{
    if d < 10 {
        ((48 + d) as u8) as char
    } else {
        ((87 + d) as u8) as char
    }
}

/// Lowercase hex rendering of a byte sequence: two digits per byte, high
/// nibble first.
pub open spec fn hex_lower_of(b: Seq<u8>) -> Seq<char> {
    Seq::new(
        b.len() * 2,
        |i: int|
            if i % 2 == 0 {
                hex_digit((b[i / 2] / 16) as u8)
            } else {
                hex_digit((b[i / 2] % 16) as u8)
            },
    )
}

/// Computes the lowercase hex digit for a nibble.
pub fn hex_digit_char(d: u8) -> (c: char)
    requires
        d < 16,
    ensures
        c == hex_digit(d),
{
    if d < 10 {
        (48 + d) as char
    } else {
        (87 + d) as char
    }
}

/// The 32-byte SHA3-256 digest of a byte sequence. Computed only by the
/// `sha3` crate; nothing here states its value.
pub uninterp spec fn sha3_256_of(bytes: Seq<u8>) -> Seq<u8>;

/// The fingerprint of a serialized payload: lowercase hex of the SHA3-256
/// digest of its UTF-8 bytes.
pub open spec fn fingerprint_spec(payload: Seq<char>) -> Seq<char> {
    hex_lower_of(sha3_256_of(vstd::utf8::encode_utf8(payload)))
}

/// Relies on sha3::Sha3_256 through digest::Digest::digest: returns the
/// 32-byte SHA3-256 digest, a function of the input bytes alone.
#[verifier::external_body]
fn sha3_256(s: &str) -> (r: Vec<u8>)
    ensures
        r@ == sha3_256_of(s.spec_bytes()),
        r@.len() == 32,
{
    sha3::Sha3_256::digest(s.as_bytes()).as_slice().to_vec()
}

/// Relies on base16ct::lower::encode_string: two lowercase hex digits per
/// input byte, high nibble first. It panics above usize::MAX / 2 input
/// bytes, which the precondition rules out.
#[verifier::external_body]
fn hex_lower(b: &Vec<u8>) -> (r: String)
    requires
        b@.len() <= usize::MAX / 2,
    ensures
        r@ == hex_lower_of(b@),
{
    base16ct::lower::encode_string(b.as_slice())
}

/// The fingerprint of a payload string, as served beside the cached listing.
pub fn fingerprint_of(payload: &str) -> (r: String)
    ensures
        r@ == fingerprint_spec(payload@),
{
    let digest = sha3_256(payload);
    hex_lower(&digest)
}

} // verus!
