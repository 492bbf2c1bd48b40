use vstd::prelude::*;
use core::str::FromStr;
use bigdecimal::Zero;

verus! {

/// An arbitrary-precision decimal, carried as the text of its normalized
/// form (no trailing fractional zeros, as `bigdecimal` normalizes it).
///
/// The crate never computes with the digits itself: construction and the
/// arithmetic on [`crate::Value::Decimal`] go through `bigdecimal` behind
/// the trusted wrappers below, and the text is what travels through the
/// value tree, the JSON envelope and the literal renderer.
#[derive(Debug)]
pub struct TeonDecimal {
    repr: String,
}

impl Clone for TeonDecimal {
    /// A copy carries the same normalized text.
    fn clone(&self) -> (r: TeonDecimal)
        ensures
            r.text() == self.text(),
    {
        TeonDecimal { repr: self.repr.clone() }
    }
}

/// What `bigdecimal` accepts as a decimal literal: `BigDecimal::from_str`
/// succeeds on this character sequence.
pub uninterp spec fn dec_parses(s: Seq<char>) -> bool;

/// The normalized rendering of a decimal literal: parse with
/// `BigDecimal::from_str`, normalize away trailing zeros with
/// `BigDecimal::normalized`, render with its `Display`.
pub uninterp spec fn dec_norm_of(s: Seq<char>) -> Seq<char>;

/// The sign of the comparison of two decimal literals under
/// `BigDecimal::cmp`: negative, zero or positive as the first is less
/// than, equal to or greater than the second.
pub uninterp spec fn dec_cmp_of(a: Seq<char>, b: Seq<char>) -> int;

/// Whether a decimal literal denotes zero, as `BigDecimal::is_zero` sees it.
pub uninterp spec fn dec_is_zero(s: Seq<char>) -> bool;

/// The normalized sum of two decimal literals, by `BigDecimal`'s `Add`.
pub uninterp spec fn dec_add_of(a: Seq<char>, b: Seq<char>) -> Seq<char>;

/// The normalized difference of two decimal literals, by `BigDecimal`'s `Sub`.
pub uninterp spec fn dec_sub_of(a: Seq<char>, b: Seq<char>) -> Seq<char>;

/// The normalized product of two decimal literals, by `BigDecimal`'s `Mul`.
pub uninterp spec fn dec_mul_of(a: Seq<char>, b: Seq<char>) -> Seq<char>;

/// The normalized quotient of two decimal literals, by `BigDecimal`'s `Div`.
/// Meaningful only when the divisor is not zero.
pub uninterp spec fn dec_div_of(a: Seq<char>, b: Seq<char>) -> Seq<char>;

/// The normalized remainder of two decimal literals, by `BigDecimal`'s `Rem`.
/// Meaningful only when the divisor is not zero.
pub uninterp spec fn dec_rem_of(a: Seq<char>, b: Seq<char>) -> Seq<char>;

/// The normalized negation of a decimal literal, by `BigDecimal`'s `Neg`.
pub uninterp spec fn dec_neg_of(s: Seq<char>) -> Seq<char>;

/// Relies on `bigdecimal::BigDecimal::from_str` to read the literal and on
/// `normalized` and `Display` to render its canonical form.
#[verifier::external_body]
fn dec_normalize(s: &str) -> (r: Option<String>)
    ensures
        r is Some <==> dec_parses(s@),
        r matches Some(t) ==> t@ == dec_norm_of(s@),
{
    match bigdecimal::BigDecimal::from_str(s) {
        Ok(d) => Some(d.normalized().to_string()),
        Err(_) => None,
    }
}

/// Relies on `bigdecimal::BigDecimal::cmp`, a total order on decimals.
/// Text that does not parse as a decimal is read as zero, so the named
/// comparison is defined on every pair of texts.
#[verifier::external_body]
fn dec_compare(a: &str, b: &str) -> (r: i8)
    ensures
        r as int == dec_cmp_of(a@, b@),
        -1 <= r as int <= 1,
{
    let x = bigdecimal::BigDecimal::from_str(a).unwrap_or_default();
    let y = bigdecimal::BigDecimal::from_str(b).unwrap_or_default();
    match x.cmp(&y) {
        core::cmp::Ordering::Less => -1,
        core::cmp::Ordering::Equal => 0,
        core::cmp::Ordering::Greater => 1,
    }
}

/// Relies on `bigdecimal::BigDecimal::is_zero`.  Text that does not
/// parse as a decimal is read as zero.
#[verifier::external_body]
fn dec_zero_test(s: &str) -> (r: bool)
    ensures
        r == dec_is_zero(s@),
{
    bigdecimal::BigDecimal::from_str(s).unwrap_or_default().is_zero()
}

/// Relies on `bigdecimal`'s `Add` for `BigDecimal`.  Text that does
/// not parse as a decimal is read as zero, as in every arithmetic
/// wrapper below.
#[verifier::external_body]
fn dec_add_str(a: &str, b: &str) -> (r: String)
    ensures
        r@ == dec_add_of(a@, b@),
{
    let x = bigdecimal::BigDecimal::from_str(a).unwrap_or_default();
    let y = bigdecimal::BigDecimal::from_str(b).unwrap_or_default();
    (x + y).normalized().to_string()
}

/// Relies on `bigdecimal`'s `Sub` for `BigDecimal`.
#[verifier::external_body]
fn dec_sub_str(a: &str, b: &str) -> (r: String)
    ensures
        r@ == dec_sub_of(a@, b@),
{
    let x = bigdecimal::BigDecimal::from_str(a).unwrap_or_default();
    let y = bigdecimal::BigDecimal::from_str(b).unwrap_or_default();
    (x - y).normalized().to_string()
}

/// Relies on `bigdecimal`'s `Mul` for `BigDecimal`.
#[verifier::external_body]
fn dec_mul_str(a: &str, b: &str) -> (r: String)
    ensures
        r@ == dec_mul_of(a@, b@),
{
    let x = bigdecimal::BigDecimal::from_str(a).unwrap_or_default();
    let y = bigdecimal::BigDecimal::from_str(b).unwrap_or_default();
    (x * y).normalized().to_string()
}

/// Relies on `bigdecimal`'s `Div` for `BigDecimal`, which demands a
/// nonzero divisor (it panics on zero, so the divisor is checked with
/// [`dec_zero_test`] before ever reaching this call; unparseable text
/// reads as zero there too, so it is likewise excluded).
#[verifier::external_body]
fn dec_div_str(a: &str, b: &str) -> (r: String)
    requires
        !dec_is_zero(b@),
    ensures
        r@ == dec_div_of(a@, b@),
{
    let x = bigdecimal::BigDecimal::from_str(a).unwrap_or_default();
    let y = bigdecimal::BigDecimal::from_str(b).unwrap_or_default();
    (x / y).normalized().to_string()
}

/// Relies on `bigdecimal`'s `Rem` for `BigDecimal`, which demands a
/// nonzero divisor (it panics on zero, so the divisor is checked with
/// [`dec_zero_test`] before ever reaching this call).
#[verifier::external_body]
fn dec_rem_str(a: &str, b: &str) -> (r: String)
    requires
        !dec_is_zero(b@),
    ensures
        r@ == dec_rem_of(a@, b@),
{
    let x = bigdecimal::BigDecimal::from_str(a).unwrap_or_default();
    let y = bigdecimal::BigDecimal::from_str(b).unwrap_or_default();
    (x % y).normalized().to_string()
}

/// The normalized reciprocal of a decimal literal, by `BigDecimal`'s
/// `Div` with a unit dividend.  Meaningful only when the literal is not
/// zero.
pub uninterp spec fn dec_recip_of(s: Seq<char>) -> Seq<char>;

/// Relies on `bigdecimal`'s `Div` for `BigDecimal`, dividing one by the
/// operand; the divisor is checked nonzero first, since `Div` panics on
/// a zero divisor.
#[verifier::external_body]
fn dec_recip_str(s: &str) -> (r: String)
    requires
        !dec_is_zero(s@),
    ensures
        r@ == dec_recip_of(s@),
{
    let one = bigdecimal::BigDecimal::from(1);
    let x = bigdecimal::BigDecimal::from_str(s).unwrap_or_default();
    (one / x).normalized().to_string()
}

/// Relies on `bigdecimal`'s `Neg` for `BigDecimal`.
#[verifier::external_body]
fn dec_neg_str(s: &str) -> (r: String)
    ensures
        r@ == dec_neg_of(s@),
{
    let x = bigdecimal::BigDecimal::from_str(s).unwrap_or_default();
    (-x).normalized().to_string()
}

impl TeonDecimal {
    /// Reads a decimal literal, failing on text that is not a decimal.
    /// The stored form is normalized: `"1.50"` comes back as `"1.5"`.
    pub fn new(s: &str) -> (r: Option<TeonDecimal>)
        ensures
            r is Some <==> dec_parses(s@),
            r matches Some(d) ==> d.text() == dec_norm_of(s@),
    {
        match dec_normalize(s) {
            Some(t) => Some(TeonDecimal { repr: t }),
            None => None,
        }
    }

    /// The normalized text of the decimal.
    pub fn as_str(&self) -> (r: &str)
        ensures
            r@ == self.text(),
    {
        self.repr.as_str()
    }

    /// The stored character sequence, for contracts.
    pub closed spec fn text(&self) -> Seq<char> {
        self.repr@
    }

    /// Whether the decimal is zero.
    pub fn is_zero(&self) -> (r: bool)
        ensures
            r == dec_is_zero(self.text()),
    {
        dec_zero_test(self.repr.as_str())
    }

    /// Compares two decimals numerically; negative, zero or positive as
    /// `self` is less than, equal to or greater than `other`.
    pub fn compare(&self, other: &TeonDecimal) -> (r: i8)
        ensures
            r as int == dec_cmp_of(self.text(), other.text()),
            -1 <= r as int <= 1,
    {
        dec_compare(self.repr.as_str(), other.repr.as_str())
    }

    pub fn add(&self, other: &TeonDecimal) -> (r: TeonDecimal)
        ensures
            r.text() == dec_add_of(self.text(), other.text()),
    {
        TeonDecimal { repr: dec_add_str(self.repr.as_str(), other.repr.as_str()) }
    }

    pub fn sub(&self, other: &TeonDecimal) -> (r: TeonDecimal)
        ensures
            r.text() == dec_sub_of(self.text(), other.text()),
    {
        TeonDecimal { repr: dec_sub_str(self.repr.as_str(), other.repr.as_str()) }
    }

    pub fn mul(&self, other: &TeonDecimal) -> (r: TeonDecimal)
        ensures
            r.text() == dec_mul_of(self.text(), other.text()),
    {
        TeonDecimal { repr: dec_mul_str(self.repr.as_str(), other.repr.as_str()) }
    }

    /// Division; the caller rules out a zero divisor first.
    pub fn div(&self, other: &TeonDecimal) -> (r: TeonDecimal)
        requires
            !dec_is_zero(other.text()),
        ensures
            r.text() == dec_div_of(self.text(), other.text()),
    {
        TeonDecimal { repr: dec_div_str(self.repr.as_str(), other.repr.as_str()) }
    }

    /// Remainder; the caller rules out a zero divisor first.
    pub fn rem(&self, other: &TeonDecimal) -> (r: TeonDecimal)
        requires
            !dec_is_zero(other.text()),
        ensures
            r.text() == dec_rem_of(self.text(), other.text()),
    {
        TeonDecimal { repr: dec_rem_str(self.repr.as_str(), other.repr.as_str()) }
    }

    pub fn neg(&self) -> (r: TeonDecimal)
        ensures
            r.text() == dec_neg_of(self.text()),
    {
        TeonDecimal { repr: dec_neg_str(self.repr.as_str()) }
    }

    /// Reciprocal; the caller rules out a zero operand first.
    pub fn recip(&self) -> (r: TeonDecimal)
        requires
            !dec_is_zero(self.text()),
        ensures
            r.text() == dec_recip_of(self.text()),
    {
        TeonDecimal { repr: dec_recip_str(self.repr.as_str()) }
    }
}

} // verus!
