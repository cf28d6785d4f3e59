//! Why a record, a dataset or a report was refused.
use vstd::prelude::*;

verus! {

/// A refusal, with the text it concerns.
#[derive(Clone, Debug)]
pub enum DataError {
    /// A date field could not be read; holds the field's text.
    Date(String),
    /// A value was read but is out of its range; holds the value's text.
    Invalid(String),
    /// A whole-number field could not be read; holds the field's text.
    Int(String),
    /// A decimal field could not be read; holds the field's text.
    Decimal(String),
    /// Any other refusal, described in words.
    Problem(String),
}

/// A refusal as a value of specifications.
pub enum Fault {
    Date(Seq<char>),
    Invalid(Seq<char>),
    Int(Seq<char>),
    Decimal(Seq<char>),
    Problem(Seq<char>),
}

impl View for DataError {
    type V = Fault;

    open spec fn view(&self) -> Fault {
        match self {
            DataError::Date(s) => Fault::Date(s@),
            DataError::Invalid(s) => Fault::Invalid(s@),
            DataError::Int(s) => Fault::Int(s@),
            DataError::Decimal(s) => Fault::Decimal(s@),
            DataError::Problem(s) => Fault::Problem(s@),
        }
    }
}

/// The view of a result whose success carries no data of interest.
pub open spec fn outcome_view<T>(r: Result<T, DataError>) -> Result<T, Fault> {
    match r {
        Ok(v) => Ok(v),
        Err(e) => Err(e@),
    }
}

/// The views of a sequence of results.
pub open spec fn outcome_views<T>(v: Seq<Result<T, DataError>>) -> Seq<Result<T, Fault>> {
    Seq::new(v.len(), |i: int| outcome_view(v[i]))
}

impl DataError {
    /// An equal refusal.
    pub fn duplicate(&self) -> (r: DataError)
        ensures
            r@ == self@,
    {
        match self {
            DataError::Date(s) => DataError::Date(s.clone()),
            DataError::Invalid(s) => DataError::Invalid(s.clone()),
            DataError::Int(s) => DataError::Int(s.clone()),
            DataError::Decimal(s) => DataError::Decimal(s.clone()),
            DataError::Problem(s) => DataError::Problem(s.clone()),
        }
    }
}

} // verus!
