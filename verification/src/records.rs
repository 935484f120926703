//! The vector records that generators produce, the generator's own error
//! type, and the negative vectors that depend on nothing but an operation's
//! required input length.

use vstd::prelude::*;

use crate::codec::{hex_of, hex_string, make_filled_bytes, make_zero_bytes, zero_bytes};

verus! {

/// A valid-input / expected-output pair.
pub struct VectorSuccess {
    pub input: String,
    pub expected: String,
    pub name: Option<String>,
}

/// A malformed-input / expected-error pair.
pub struct VectorFail {
    pub input: String,
    pub expected_error: String,
    pub name: String,
}

/// An internal-consistency failure of the generator itself.  Generation
/// fails fast on these rather than emit a corrupted vector.
#[derive(Clone, Copy, Debug, PartialEq, Eq, Structural)]
pub enum GenError {
    /// The external arithmetic library rejected bytes the generator
    /// believed to be canonical.
    Arithmetic,
    /// A rejection-sampling search exhausted its iteration bound.
    SearchExhausted,
    /// A synthesized defective point failed the predicate it was built to
    /// satisfy.
    CheckFailed,
}

/// The 32-byte big-endian boolean sentinel for a pairing check that must
/// evaluate to true: all zero bytes except the lowest-order byte set to 1.
pub open spec fn true_sentinel() -> Seq<u8> {
    zero_bytes(31).push(1u8)
}

/// The 32-byte all-zero sentinel for a pairing check that must evaluate to
/// false.
pub open spec fn false_sentinel() -> Seq<u8> {
    zero_bytes(32)
}

/// The true sentinel as bytes.
pub fn true_sentinel_bytes() -> (r: Vec<u8>)
    ensures
        r@ == true_sentinel(),
{
    let mut out = crate::codec::make_zero_bytes(31);
    out.push(1u8);
    assert(out@ =~= true_sentinel());
    out
}

/// The false sentinel as bytes.
pub fn false_sentinel_bytes() -> (r: Vec<u8>)
    ensures
        r@ == false_sentinel(),
{
    crate::codec::make_zero_bytes(32)
}

/// Decimal digits of `n`, most significant first, no sign and no leading
/// zeros.
pub open spec fn dec_str(n: nat) -> Seq<char>
    decreases n,
{
    if n < 10 {
        seq![dec_digit(n)]
    } else {
        dec_str(n / 10).push(dec_digit(n % 10))
    }
}

/// One decimal digit.
pub open spec fn dec_digit(n: nat) -> char {
    if n == 0 {
        '0'
    } else if n == 1 {
        '1'
    } else if n == 2 {
        '2'
    } else if n == 3 {
        '3'
    } else if n == 4 {
        '4'
    } else if n == 5 {
        '5'
    } else if n == 6 {
        '6'
    } else if n == 7 {
        '7'
    } else if n == 8 {
        '8'
    } else {
        '9'
    }
}

/// Relies on `u64`'s `Display` implementation through `format!`: the
/// decimal digits of the value, most significant first, no sign, no
/// leading zeros.
#[verifier::external_body]
pub fn dec_string(n: u64) -> (r: String)
    ensures
        r@ == dec_str(n as nat),
{
    format!("{}", n)
}

/// A name of the form `<stem>_<k>`.
pub fn numbered_name(stem: &str, k: u64) -> (r: String)
    ensures
        r@ == stem@ + seq!['_'] + dec_str(k as nat),
{
    let mut out = String::from_str(stem);
    out.append("_");
    proof {
        reveal_strlit("_");
        assert(stem@ + "_"@ =~= stem@ + seq!['_']);
    }
    let digits = dec_string(k);
    out.append(digits.as_str());
    out
}

/// The three invalid-length records for an operation of required input
/// length `input_len`: an empty input, an input of exactly one byte less
/// than the required length (zero-filled), and an input one byte long,
/// filled with a fixed non-zero pattern.
pub open spec fn invalid_length_triple(r: Seq<VectorFail>, input_len: int) -> bool {
    &&& r.len() == 3
    &&& r[0].input@ == Seq::<char>::empty()
    &&& r[0].expected_error@ == "invalid input length"@
    &&& r[0].name@ == "invalid_input_length_empty"@
    &&& r[1].input@ == hex_of(zero_bytes((input_len - 1) as nat))
    &&& r[1].expected_error@ == "invalid input length"@
    &&& r[1].name@ == "invalid_input_length_short"@
    &&& r[2].input@ == hex_of(Seq::new((input_len + 1) as nat, |i: int| 1u8))
    &&& r[2].expected_error@ == "invalid input length"@
    &&& r[2].name@ == "invalid_input_length_large"@
}

/// The three invalid-length vectors shared by every operation: an empty
/// input, an input of exactly one zero byte less than the required length,
/// and an input one byte long, filled with a fixed non-zero pattern.
pub fn invalid_length_vectors(input_len: usize) -> (r: Vec<VectorFail>)
    requires
        1 <= input_len < usize::MAX,
    ensures
        invalid_length_triple(r@, input_len as int),
{
    let mut out: Vec<VectorFail> = Vec::new();
    out.push(
        VectorFail {
            input: String::new(),
            expected_error: String::from_str("invalid input length"),
            name: String::from_str("invalid_input_length_empty"),
        },
    );
    let short = make_zero_bytes(input_len - 1);
    out.push(
        VectorFail {
            input: hex_string(&short),
            expected_error: String::from_str("invalid input length"),
            name: String::from_str("invalid_input_length_short"),
        },
    );
    let long = make_filled_bytes(input_len + 1, 1u8);
    out.push(
        VectorFail {
            input: hex_string(&long),
            expected_error: String::from_str("invalid input length"),
            name: String::from_str("invalid_input_length_large"),
        },
    );
    out
}

} // verus!
