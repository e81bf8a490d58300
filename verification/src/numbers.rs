//! Decimal integers: the grammar that `str::parse` accepts for `i32` and
//! `u32`, and the facts that tie it to the formatting in `text`.

use vstd::prelude::*;
use vstd::string::StringExecFns;
use crate::text::{decimal, digit_char, signed_decimal};

verus! {

broadcast use vstd::string::group_string_axioms;

/// Why a decimal integer could not be read (the kinds of `ParseIntError`).
#[derive(Clone, Copy, Debug, PartialEq, Eq, Structural)]
pub enum IntParseError {
    Empty,
    InvalidDigit,
    PosOverflow,
    NegOverflow,
    Zero,
    Unknown,
}

/// An ASCII decimal digit.
pub open spec fn is_digit(c: char) -> bool {
    48 <= (c as u32) <= 57
}

/// Every character of `s` is an ASCII digit.
pub open spec fn all_digits(s: Seq<char>) -> bool {
    forall|i: int| 0 <= i < s.len() ==> is_digit(#[trigger] s[i])
}

/// The number that a string of digits denotes.
pub open spec fn digits_value(s: Seq<char>) -> nat
    decreases s.len(),
{
    if s.len() == 0 {
        0
    } else {
        digits_value(s.drop_last()) * 10 + ((s.last() as u32) - 48) as nat
    }
}

/// The value of an optional `+` or `-` followed by at least one digit;
/// `None` for anything else.
pub open spec fn signed_decimal_value(s: Seq<char>) -> Option<int> {
    if s.len() >= 2 && s[0] == '-' && all_digits(s.skip(1)) {
        Some(-(digits_value(s.skip(1)) as int))
    } else if s.len() >= 2 && s[0] == '+' && all_digits(s.skip(1)) {
        Some(digits_value(s.skip(1)) as int)
    } else if s.len() >= 1 && all_digits(s) {
        Some(digits_value(s) as int)
    } else {
        None
    }
}

/// The value of an optional `+` followed by at least one digit; `None` for
/// anything else.
pub open spec fn unsigned_decimal_value(s: Seq<char>) -> Option<int> {
    if s.len() >= 2 && s[0] == '+' && all_digits(s.skip(1)) {
        Some(digits_value(s.skip(1)) as int)
    } else if s.len() >= 1 && all_digits(s) {
        Some(digits_value(s) as int)
    } else {
        None
    }
}

/// The kind of error that reading `s` as an `i32` reports, where it fails.
pub uninterp spec fn i32_parse_error_kind(s: Seq<char>) -> IntParseError;

/// The kind of error that reading `s` as a `u32` reports, where it fails.
pub uninterp spec fn u32_parse_error_kind(s: Seq<char>) -> IntParseError;

/// What reading `s` as an `i32` gives.
pub open spec fn i32_outcome(s: Seq<char>) -> Result<i32, IntParseError> {
    match signed_decimal_value(s) {
        Some(v) if i32::MIN <= v <= i32::MAX => Ok(v as i32),
        _ => Err(i32_parse_error_kind(s)),
    }
}

/// What reading `s` as a `u32` gives.
pub open spec fn u32_outcome(s: Seq<char>) -> Result<u32, IntParseError> {
    match unsigned_decimal_value(s) {
        Some(v) if v <= u32::MAX => Ok(v as u32),
        _ => Err(u32_parse_error_kind(s)),
    }
}

/// `str::parse::<i32>`: succeeds exactly on an optional sign followed by
/// decimal digits whose value fits, and then returns that value. An empty
/// string is reported as `Empty` and a well-formed number out of range as the
/// overflow on its side, and a sign on its own as `InvalidDigit`. For other
/// malformed input the exact kind (invalid digit or an overflow met before
/// it) is left to the name `i32_parse_error_kind`.
#[verifier::external_body]
pub(crate) fn parse_i32(s: &str) -> (r: Result<i32, IntParseError>)
    ensures
        r is Ok <==> (signed_decimal_value(s@) matches Some(v) && i32::MIN <= v <= i32::MAX),
        r matches Ok(v) ==> signed_decimal_value(s@) == Some(v as int),
        r matches Err(e) ==> e == i32_parse_error_kind(s@),
        s@.len() == 0 ==> r matches Err(IntParseError::Empty),
        (signed_decimal_value(s@) matches Some(v) && v > i32::MAX) ==> r matches Err(IntParseError::PosOverflow),
        (signed_decimal_value(s@) matches Some(v) && v < i32::MIN) ==> r matches Err(IntParseError::NegOverflow),
        (s@ == "+"@ || s@ == "-"@) ==> r matches Err(IntParseError::InvalidDigit),
        r matches Err(e) ==> (s@.len() > 0 && signed_decimal_value(s@) is None ==> (e is InvalidDigit || e is PosOverflow || e is NegOverflow)),
{
    match s.parse::<i32>() {
        Ok(v) => Ok(v),
        Err(e) => Err(match e.kind() {
            std::num::IntErrorKind::Empty => IntParseError::Empty,
            std::num::IntErrorKind::InvalidDigit => IntParseError::InvalidDigit,
            std::num::IntErrorKind::PosOverflow => IntParseError::PosOverflow,
            std::num::IntErrorKind::NegOverflow => IntParseError::NegOverflow,
            std::num::IntErrorKind::Zero => IntParseError::Zero,
            _ => IntParseError::Unknown,
        }),
    }
}

/// `str::parse::<u32>`: succeeds exactly on an optional `+` followed by
/// decimal digits whose value fits, and then returns that value. An empty
/// string is reported as `Empty`, a well-formed number too large as
/// `PosOverflow`, and a sign on its own as `InvalidDigit`. For other
/// malformed input (a leading `-` among them) the exact kind is left to the
/// name `u32_parse_error_kind`.
#[verifier::external_body]
pub(crate) fn parse_u32(s: &str) -> (r: Result<u32, IntParseError>)
    ensures
        r is Ok <==> (unsigned_decimal_value(s@) matches Some(v) && v <= u32::MAX),
        r matches Ok(v) ==> unsigned_decimal_value(s@) == Some(v as int),
        r matches Err(e) ==> e == u32_parse_error_kind(s@),
        s@.len() == 0 ==> r matches Err(IntParseError::Empty),
        (unsigned_decimal_value(s@) matches Some(v) && v > u32::MAX) ==> r matches Err(IntParseError::PosOverflow),
        (s@ == "+"@ || s@ == "-"@) ==> r matches Err(IntParseError::InvalidDigit),
        r matches Err(e) ==> (s@.len() > 0 && unsigned_decimal_value(s@) is None ==> (e is InvalidDigit || e is PosOverflow)),
{
    match s.parse::<u32>() {
        Ok(v) => Ok(v),
        Err(e) => Err(match e.kind() {
            std::num::IntErrorKind::Empty => IntParseError::Empty,
            std::num::IntErrorKind::InvalidDigit => IntParseError::InvalidDigit,
            std::num::IntErrorKind::PosOverflow => IntParseError::PosOverflow,
            std::num::IntErrorKind::NegOverflow => IntParseError::NegOverflow,
            std::num::IntErrorKind::Zero => IntParseError::Zero,
            _ => IntParseError::Unknown,
        }),
    }
}

impl IntParseError {
    /// The text that describes this kind of error.
    pub open spec fn text(self) -> Seq<char> {
        match self {
            IntParseError::Empty => "cannot parse integer from empty string"@,
            IntParseError::InvalidDigit => "invalid digit found in string"@,
            IntParseError::PosOverflow => "number too large to fit in target type"@,
            IntParseError::NegOverflow => "number too small to fit in target type"@,
            IntParseError::Zero => "number would be zero for non-zero type"@,
            IntParseError::Unknown => "invalid integer"@,
        }
    }

    /// The text that describes this kind of error.
    pub fn message(&self) -> (r: String)
        ensures
            r@ == self.text(),
    {
        match self {
            IntParseError::Empty => String::from_str("cannot parse integer from empty string"),
            IntParseError::InvalidDigit => String::from_str("invalid digit found in string"),
            IntParseError::PosOverflow => String::from_str("number too large to fit in target type"),
            IntParseError::NegOverflow => String::from_str("number too small to fit in target type"),
            IntParseError::Zero => String::from_str("number would be zero for non-zero type"),
            IntParseError::Unknown => String::from_str("invalid integer"),
        }
    }
}

// ---------------------------------------------------------------------------
// Formatting and reading agree
// ---------------------------------------------------------------------------

/// Every character of a decimal rendering is a digit, and it denotes the number.
pub proof fn lemma_decimal_digits(n: nat)
    ensures
        decimal(n).len() >= 1,
        all_digits(decimal(n)),
        digits_value(decimal(n)) == n,
    decreases n,
{
    let d = n % 10;
    assert(digit_char(d) as u32 == d + 48);
    if n >= 10 {
        lemma_decimal_digits(n / 10);
        let p = decimal(n / 10);
        assert(decimal(n).drop_last() =~= p);
        assert(decimal(n).last() == digit_char(d));
        assert(digits_value(decimal(n)) == digits_value(p) * 10 + d);
        assert(n == (n / 10) * 10 + n % 10) by (nonlinear_arith);
        assert forall|i: int| 0 <= i < decimal(n).len() implies is_digit(#[trigger] decimal(n)[i]) by {
            if i < p.len() {
                assert(decimal(n)[i] == p[i]);
            }
        }
    } else {
        assert(decimal(n).drop_last() =~= Seq::<char>::empty());
        assert(d == n);
        assert(decimal(n).last() == digit_char(d));
        assert(digits_value(decimal(n)) == digits_value(Seq::<char>::empty()) * 10 + d);
    }
}

/// Reading back the decimal rendering of an `i32` gives the same number.
pub proof fn lemma_signed_decimal_reads_back(v: i32)
    ensures
        signed_decimal_value(signed_decimal(v as int)) == Some(v as int),
        i32_outcome(signed_decimal(v as int)) == Ok::<i32, IntParseError>(v),
{
    let s = signed_decimal(v as int);
    if v < 0 {
        let m = (-v) as nat;
        lemma_decimal_digits(m);
        assert(s.skip(1) =~= decimal(m));
    } else {
        lemma_decimal_digits(v as nat);
        assert(is_digit(s[0]));
    }
}

/// Reading back the decimal rendering of a `u32` gives the same number.
pub proof fn lemma_decimal_reads_back(n: u32)
    ensures
        unsigned_decimal_value(decimal(n as nat)) == Some(n as int),
        u32_outcome(decimal(n as nat)) == Ok::<u32, IntParseError>(n),
{
    lemma_decimal_digits(n as nat);
    assert(is_digit(decimal(n as nat)[0]));
}

} // verus!
