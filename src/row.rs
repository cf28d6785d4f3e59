//! One raw row of a tabular dataset: loosely typed scalar cells.
use crate::date::{datetime_date_of, parse_datetime_date, Date};
use crate::decimal::{decimal_of_text, parse_decimal, Dec};
use crate::error::{DataError, Fault};
use crate::text::{i64_of_text, parse_i64};
use vstd::prelude::*;

verus! {

/// A scalar cell of a raw row, as the dataset's text held it.
#[derive(Clone, Debug)]
pub enum RawValue {
    /// A number that fits in an `i64`.
    Int(i64),
    /// A string.
    Text(String),
    /// Anything else (null, a boolean, a fraction, a nested value).
    Other,
}

/// The layout of timestamps in raw rows.
pub const TIMESTAMP_FORMAT: &'static str = "%Y-%m-%dT%H:%M:%S";

pub open spec fn timestamp_format_spec() -> Seq<char> {
    TIMESTAMP_FORMAT@
}

/// The text of cell `i`, when the row has that cell and it is a string.
pub open spec fn cell_text(row: Seq<RawValue>, i: int) -> Option<Seq<char>> {
    if 0 <= i < row.len() {
        match row[i] {
            RawValue::Text(s) => Some(s@),
            _ => None,
        }
    } else {
        None
    }
}

/// The integer of cell `i`, when the row has that cell and it is an integer.
pub open spec fn cell_int(row: Seq<RawValue>, i: int) -> Option<i64> {
    if 0 <= i < row.len() {
        match row[i] {
            RawValue::Int(v) => Some(v),
            _ => None,
        }
    } else {
        None
    }
}

/// The text that a refusal of cell `i` quotes: the cell's string, or nothing
/// when the cell is missing or holds no string.
pub open spec fn quoted(row: Seq<RawValue>, i: int) -> Seq<char> {
    match cell_text(row, i) {
        Some(s) => s,
        None => Seq::empty(),
    }
}

/// A required integer held as a number; anything else fails the row.
pub open spec fn number_field(row: Seq<RawValue>, i: int) -> Result<i64, Fault> {
    match cell_int(row, i) {
        Some(v) => Ok(v),
        None => Err(Fault::Int(quoted(row, i))),
    }
}

/// A required date held as a timestamp string; anything else fails the row.
pub open spec fn date_field(row: Seq<RawValue>, i: int) -> Result<Date, Fault> {
    match cell_text(row, i) {
        Some(s) => match datetime_date_of(s, timestamp_format_spec()) {
            Some(d) => Ok(d),
            None => Err(Fault::Date(s)),
        },
        None => Err(Fault::Date(Seq::empty())),
    }
}

/// A required count held as a string; anything else fails the row.
pub open spec fn count_field(row: Seq<RawValue>, i: int) -> Result<i64, Fault> {
    match cell_text(row, i) {
        Some(s) => match i64_of_text(s) {
            Some(v) => Ok(v),
            None => Err(Fault::Int(s)),
        },
        None => Err(Fault::Int(Seq::empty())),
    }
}

/// A count held as a string that may be left unknown: `None` where no string is
/// there or it does not read as a count.
pub open spec fn optional_count_field(row: Seq<RawValue>, i: int) -> Option<i64> {
    match cell_text(row, i) {
        Some(s) => i64_of_text(s),
        None => None,
    }
}

/// A rate held as a string: absent (`None`) where no string is there; a string
/// that does not read as a decimal fails the row.
pub open spec fn rate_field(row: Seq<RawValue>, i: int) -> Result<Option<Dec>, Fault> {
    match cell_text(row, i) {
        Some(s) => match decimal_of_text(s) {
            Some(d) => Ok(Some(d)),
            None => Err(Fault::Decimal(s)),
        },
        None => Ok(None),
    }
}

/// The text of a cell that holds a string, or an empty text.
fn quote(row: &[RawValue], i: usize) -> (r: String)
    ensures
        r@ == quoted(row@, i as int),
{
    if i < row.len() {
        match &row[i] {
            RawValue::Text(s) => s.clone(),
            _ => String::new(),
        }
    } else {
        String::new()
    }
}

pub fn read_number(row: &[RawValue], i: usize) -> (r: Result<i64, DataError>)
    ensures
        crate::error::outcome_view(r) == number_field(row@, i as int),
{
    if i < row.len() {
        if let RawValue::Int(v) = &row[i] {
            return Ok(*v);
        }
    }
    Err(DataError::Int(quote(row, i)))
}

pub fn read_date(row: &[RawValue], i: usize) -> (r: Result<Date, DataError>)
    ensures
        r matches Ok(d) ==> d.wf(),
        crate::error::outcome_view(r) == date_field(row@, i as int),
{
    if i < row.len() {
        if let RawValue::Text(s) = &row[i] {
            return match parse_datetime_date(s.as_str(), TIMESTAMP_FORMAT) {
                Some(d) => Ok(d),
                None => Err(DataError::Date(s.clone())),
            };
        }
    }
    Err(DataError::Date(String::new()))
}

pub fn read_count(row: &[RawValue], i: usize) -> (r: Result<i64, DataError>)
    ensures
        crate::error::outcome_view(r) == count_field(row@, i as int),
{
    if i < row.len() {
        if let RawValue::Text(s) = &row[i] {
            return match parse_i64(s.as_str()) {
                Some(v) => Ok(v),
                None => Err(DataError::Int(s.clone())),
            };
        }
    }
    Err(DataError::Int(String::new()))
}

pub fn read_optional_count(row: &[RawValue], i: usize) -> (r: Option<i64>)
    ensures
        r == optional_count_field(row@, i as int),
{
    if i < row.len() {
        match &row[i] {
            RawValue::Text(s) => parse_i64(s.as_str()),
            _ => None,
        }
    } else {
        None
    }
}

pub fn read_rate(row: &[RawValue], i: usize) -> (r: Result<Option<Dec>, DataError>)
    ensures
        r matches Ok(Some(d)) ==> d.wf(),
        crate::error::outcome_view(r) == rate_field(row@, i as int),
{
    if i < row.len() {
        if let RawValue::Text(s) = &row[i] {
            return match parse_decimal(s.as_str()) {
                Some(v) => Ok(Some(v)),
                None => Err(DataError::Decimal(s.clone())),
            };
        }
    }
    Ok(None)
}

} // verus!
