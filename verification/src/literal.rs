//! Filter literals: decimal and timestamp texts are read, and rejected if
//! malformed, before a filter reaches storage.

use crate::filter::{optional_text, AdFilter, AdFilterView};
use crate::matching::filter_valid;
use crate::model::{lemma_product_bound, pow10, power_of_ten, Decimal, Timestamp, MAX_SCALE};
use crate::numeral::{integer_from, parse_integer};
use crate::repo::{ErrorKind, RepoError};
use vstd::prelude::*;

verus! {

/// What `bigdecimal` reads in a decimal text: the unscaled integer, written
/// in decimal, and the scale; none where it rejects the text.
pub uninterp spec fn decimal_parts_of(text: Seq<char>) -> Option<(Seq<char>, int)>;

/// What `chrono` reads in a naive date-time text, as microseconds since the
/// Unix epoch; none where it rejects the text.
pub uninterp spec fn timestamp_micros_of(text: Seq<char>) -> Option<int>;

/// Parses a decimal text with `BigDecimal`'s `FromStr` impl of `bigdecimal`
/// and takes the value apart with `into_bigint_and_exponent`; the integer
/// is handed back as the text its `to_string` writes. The contract only
/// names the outcome: one text always gives one outcome.
#[verifier::external_body]
fn decimal_parts(text: &str) -> (parts: Option<(String, i64)>)
    ensures
        match parts {
            Some(p) => decimal_parts_of(text@) == Some((p.0@, p.1 as int)),
            None => decimal_parts_of(text@).is_none(),
        },
{
    match text.parse::<bigdecimal::BigDecimal>() {
        Ok(value) => {
            let (digits, scale) = value.into_bigint_and_exponent();
            Some((digits.to_string(), scale))
        },
        Err(_) => None,
    }
}

/// Parses a naive date-time text with `NaiveDateTime`'s `FromStr` impl of
/// `chrono` and takes the value as `timestamp_micros` of its UTC reading,
/// which drops what is finer than a microsecond. The contract only names
/// the outcome: one text always gives one outcome.
#[verifier::external_body]
fn timestamp_micros(text: &str) -> (micros: Option<i64>)
    ensures
        match micros {
            Some(m) => timestamp_micros_of(text@) == Some(m as int),
            None => timestamp_micros_of(text@).is_none(),
        },
{
    match text.parse::<chrono::NaiveDateTime>() {
        Ok(value) => Some(value.and_utc().timestamp_micros()),
        Err(_) => None,
    }
}

/// The decimal that an unscaled integer text and a scale stand for. A
/// negative scale is folded into the mantissa. None where the digits are
/// no 64-bit integer, the scale is beyond the supported range, or the
/// folded mantissa leaves 64 bits.
pub open spec fn decimal_of_parts(digits: Seq<char>, scale: int) -> Option<Decimal> {
    match parse_integer(digits, i64::MIN as int, i64::MAX as int) {
        Some(m) => {
            if 0 <= scale <= MAX_SCALE {
                Some(Decimal { mantissa: m as i64, scale: scale as u8 })
            } else if -(MAX_SCALE as int) <= scale < 0 && i64::MIN <= m * pow10((-scale) as nat)
                <= i64::MAX {
                Some(Decimal { mantissa: (m * pow10((-scale) as nat)) as i64, scale: 0 })
            } else {
                None
            }
        },
        None => None,
    }
}

/// Builds a decimal from an unscaled integer text and a scale.
pub fn decimal_from_parts(digits: &str, scale: i64) -> (d: Option<Decimal>)
    ensures
        d == decimal_of_parts(digits@, scale as int),
        d.is_some() ==> d.unwrap().well_formed(),
{
    match integer_from(digits, i64::MIN, i64::MAX) {
        Some(m) => {
            if 0 <= scale && scale <= MAX_SCALE as i64 {
                Some(Decimal { mantissa: m, scale: scale as u8 })
            } else if -(MAX_SCALE as i64) <= scale && scale < 0 {
                let factor: i128 = power_of_ten((-scale) as u8);
                proof {
                    lemma_product_bound(m as int, factor as int);
                }
                let folded: i128 = (m as i128) * factor;
                if i64::MIN as i128 <= folded && folded <= i64::MAX as i128 {
                    Some(Decimal { mantissa: folded as i64, scale: 0 })
                } else {
                    None
                }
            } else {
                None
            }
        },
        None => None,
    }
}

/// The decimal a text denotes, if any.
pub open spec fn decimal_of_text(text: Seq<char>) -> Option<Decimal> {
    match decimal_parts_of(text) {
        Some(parts) => decimal_of_parts(parts.0, parts.1),
        None => None,
    }
}

/// The timestamp a text denotes, if any.
pub open spec fn timestamp_of_text(text: Seq<char>) -> Option<Timestamp> {
    match timestamp_micros_of(text) {
        Some(m) => if i64::MIN <= m <= i64::MAX {
            Some(Timestamp { micros: m as i64 })
        } else {
            None
        },
        None => None,
    }
}

/// Reads a decimal literal.
pub fn parse_decimal(text: &str) -> (d: Option<Decimal>)
    ensures
        d == decimal_of_text(text@),
        d.is_some() ==> d.unwrap().well_formed(),
{
    match decimal_parts(text) {
        Some(parts) => decimal_from_parts(parts.0.as_str(), parts.1),
        None => None,
    }
}

/// Reads a timestamp literal.
pub fn parse_timestamp(text: &str) -> (t: Option<Timestamp>)
    ensures
        t == timestamp_of_text(text@),
{
    match timestamp_micros(text) {
        Some(micros) => Some(Timestamp { micros }),
        None => None,
    }
}

/// A filter as a client writes it: the bounds are still texts.
#[derive(Clone, Debug, PartialEq, Eq)]
pub struct RawAdFilter {
    pub title_contains: Option<String>,
    pub description_contains: Option<String>,
    pub price_lt: Option<String>,
    pub price_gt: Option<String>,
    pub updated_at_lt: Option<String>,
    pub updated_at_gt: Option<String>,
}

/// What an optional decimal literal reads as: `None` where it is present
/// and malformed.
pub open spec fn optional_decimal(text: Option<Seq<char>>) -> Option<Option<Decimal>> {
    match text {
        None => Some(None),
        Some(t) => match decimal_of_text(t) {
            Some(d) => Some(Some(d)),
            None => None,
        },
    }
}

/// What an optional timestamp literal reads as: `None` where it is present
/// and malformed.
pub open spec fn optional_timestamp(text: Option<Seq<char>>) -> Option<Option<Timestamp>> {
    match text {
        None => Some(None),
        Some(t) => match timestamp_of_text(t) {
            Some(d) => Some(Some(d)),
            None => None,
        },
    }
}

/// The filter a raw filter reads as: none where any present bound is
/// malformed.
pub open spec fn filter_of_raw(raw: RawAdFilter) -> Option<AdFilterView> {
    let price_lt = optional_decimal(optional_text(raw.price_lt));
    let price_gt = optional_decimal(optional_text(raw.price_gt));
    let updated_at_lt = optional_timestamp(optional_text(raw.updated_at_lt));
    let updated_at_gt = optional_timestamp(optional_text(raw.updated_at_gt));
    if price_lt.is_some() && price_gt.is_some() && updated_at_lt.is_some()
        && updated_at_gt.is_some() {
        Some(
            AdFilterView {
                title_contains: optional_text(raw.title_contains),
                description_contains: optional_text(raw.description_contains),
                price_lt: price_lt.unwrap(),
                price_gt: price_gt.unwrap(),
                updated_at_lt: updated_at_lt.unwrap(),
                updated_at_gt: updated_at_gt.unwrap(),
            },
        )
    } else {
        None
    }
}

fn malformed(literal: &String) -> (e: RepoError)
    ensures
        e.kind == ErrorKind::FilterParse,
        e.cause@ == literal@,
{
    RepoError { kind: ErrorKind::FilterParse, cause: literal.clone() }
}

fn read_decimal(text: &Option<String>) -> (r: Result<Option<Decimal>, RepoError>)
    ensures
        match r {
            Ok(d) => optional_decimal(optional_text(*text)) == Some(d) && (d.is_some()
                ==> d.unwrap().well_formed()),
            Err(e) => optional_decimal(optional_text(*text)).is_none() && e.kind
                == ErrorKind::FilterParse,
        },
{
    match text {
        None => Ok(None),
        Some(t) => match parse_decimal(t.as_str()) {
            Some(d) => Ok(Some(d)),
            None => Err(malformed(t)),
        },
    }
}

fn read_timestamp(text: &Option<String>) -> (r: Result<Option<Timestamp>, RepoError>)
    ensures
        match r {
            Ok(t) => optional_timestamp(optional_text(*text)) == Some(t),
            Err(e) => optional_timestamp(optional_text(*text)).is_none() && e.kind
                == ErrorKind::FilterParse,
        },
{
    match text {
        None => Ok(None),
        Some(t) => match parse_timestamp(t.as_str()) {
            Some(d) => Ok(Some(d)),
            None => Err(malformed(t)),
        },
    }
}

/// Reads the bounds of a raw filter. A malformed decimal or timestamp, and
/// a decimal beyond what [`Decimal`] holds, fails with a filter parse
/// error, before anything reaches storage; a filter whose present bounds
/// all read is always accepted.
pub fn parse_filter(raw: RawAdFilter) -> (r: Result<AdFilter, RepoError>)
    ensures
        match r {
            Ok(f) => filter_of_raw(raw) == Some(f@) && filter_valid(f@),
            Err(e) => filter_of_raw(raw).is_none() && e.kind == ErrorKind::FilterParse,
        },
{
    let price_lt = match read_decimal(&raw.price_lt) {
        Ok(d) => d,
        Err(e) => {
            return Err(e);
        },
    };
    let price_gt = match read_decimal(&raw.price_gt) {
        Ok(d) => d,
        Err(e) => {
            return Err(e);
        },
    };
    let updated_at_lt = match read_timestamp(&raw.updated_at_lt) {
        Ok(t) => t,
        Err(e) => {
            return Err(e);
        },
    };
    let updated_at_gt = match read_timestamp(&raw.updated_at_gt) {
        Ok(t) => t,
        Err(e) => {
            return Err(e);
        },
    };
    Ok(
        AdFilter {
            title_contains: raw.title_contains,
            description_contains: raw.description_contains,
            price_lt,
            price_gt,
            updated_at_lt,
            updated_at_gt,
        },
    )
}

} // verus!
