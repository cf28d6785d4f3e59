//! Whole datasets: declared field metadata checked against the expected
//! schema, and their rows read one by one into records.
use crate::cases::{
    cases_of_csv, cases_of_row, transform_csv_record, transform_record, CasesByVacStatus, CsvCase,
};
use crate::text::nat_chars;
use crate::error::{outcome_view, DataError, Fault};
use crate::hosp::{hosp_of_row, transform_hosp_record, HospitalizationByVacStatus};
use crate::row::RawValue;
use crate::text::{nat_text, string_of_chars};
use vstd::prelude::*;
use vstd::string::StringExecFns;

verus! {

/// Extra metadata that a dataset declares for a field.
#[derive(Clone, Debug)]
pub struct HeaderFieldInfo {
    pub notes: String,
    pub type_override: String,
    pub label: String,
}

/// A field that a dataset declares: its name, its type and metadata.
#[derive(Clone, Debug)]
pub struct HeaderField {
    pub id: String,
    pub field_type: String,
    pub info: HeaderFieldInfo,
}

/// A declared field as texts: name, type, then notes, type override and label.
pub struct FieldView {
    pub id: Seq<char>,
    pub field_type: Seq<char>,
    pub notes: Seq<char>,
    pub type_override: Seq<char>,
    pub label: Seq<char>,
}

pub open spec fn field(
    id: Seq<char>,
    field_type: Seq<char>,
    notes: Seq<char>,
    type_override: Seq<char>,
    label: Seq<char>,
) -> FieldView {
    FieldView { id, field_type, notes, type_override, label }
}

impl HeaderFieldInfo {
    pub fn new(notes: &str, type_override: &str, label: &str) -> (r: Self)
        ensures
            r.notes@ == notes@,
            r.type_override@ == type_override@,
            r.label@ == label@,
    {
        HeaderFieldInfo {
            notes: String::from_str(notes),
            type_override: String::from_str(type_override),
            label: String::from_str(label),
        }
    }
}

impl HeaderField {
    pub open spec fn view(&self) -> FieldView {
        field(
            self.id@,
            self.field_type@,
            self.info.notes@,
            self.info.type_override@,
            self.info.label@,
        )
    }

    pub fn new(id: &str, field_type: &str, info: HeaderFieldInfo) -> (r: Self)
        ensures
            r.id@ == id@,
            r.field_type@ == field_type@,
            r.info == info,
    {
        HeaderField { id: String::from_str(id), field_type: String::from_str(field_type), info }
    }

    /// Same name, type and metadata.
    pub fn same_as(&self, other: &HeaderField) -> (r: bool)
        ensures
            r == (self.view() == other.view()),
    {
        self.id == other.id && self.field_type == other.field_type && self.info.notes
            == other.info.notes && self.info.type_override == other.info.type_override
            && self.info.label == other.info.label
    }
}

pub open spec fn field_views(v: Seq<HeaderField>) -> Seq<FieldView> {
    Seq::new(v.len(), |i: int| v[i].view())
}

/// The schema of the cases dataset in the JSON layout.
pub open spec fn cases_schema() -> Seq<FieldView> {
    seq![
        field("_id"@, "int"@, ""@, ""@, ""@),
        field("Date"@, "timestamp"@, ""@, "timestamp"@, ""@),
        field("covid19_cases_unvac"@, "text"@, ""@, ""@, ""@),
        field("covid19_cases_partial_vac"@, "text"@, ""@, ""@, ""@),
        field("covid19_cases_full_vac"@, "text"@, ""@, ""@, ""@),
        field("covid19_cases_vac_unknown"@, "text"@, ""@, ""@, ""@),
        field("cases_unvac_rate_per100K"@, "text"@, ""@, ""@, ""@),
        field("cases_partial_vac_rate_per100K"@, "text"@, ""@, ""@, ""@),
        field("cases_full_vac_rate_per100K"@, "text"@, ""@, ""@, ""@),
        field("cases_unvac_rate_7ma"@, "text"@, ""@, ""@, ""@),
        field("cases_partial_vac_rate_7ma"@, "text"@, ""@, ""@, ""@),
        field("cases_full_vac_rate_7ma"@, "text"@, ""@, ""@, ""@),
    ]
}

/// The schema of the hospitalization dataset in the JSON layout.
pub open spec fn hosp_schema() -> Seq<FieldView> {
    seq![
        field("_id"@, "int"@, ""@, ""@, ""@),
        field("date"@, "timestamp"@, ""@, "timestamp"@, ""@),
        field("icu_unvac"@, "numeric"@, ""@, "numeric"@, ""@),
        field("icu_partial_vac"@, "numeric"@, ""@, "numeric"@, ""@),
        field("icu_full_vac"@, "numeric"@, ""@, "numeric"@, ""@),
        field("hospitalnonicu_unvac"@, "numeric"@, ""@, "numeric"@, ""@),
        field("hospitalnonicu_partial_vac"@, "numeric"@, ""@, "numeric"@, ""@),
        field("hospitalnonicu_full_vac"@, "numeric"@, ""@, "numeric"@, ""@),
    ]
}

/// `i` is the first position where two field lists differ.
pub open spec fn first_difference_at(a: Seq<FieldView>, b: Seq<FieldView>, i: int) -> bool {
    &&& 0 <= i < a.len()
    &&& i < b.len()
    &&& a[i] != b[i]
    &&& forall|j: int| 0 <= j < i ==> a[j] == b[j]
}

/// The outcome of checking declared fields against a schema: a refusal when the
/// counts differ, else one naming the first field that differs.
pub open spec fn schema_check(fields: Seq<FieldView>, schema: Seq<FieldView>) -> Result<(), Fault> {
    if fields.len() != schema.len() {
        Err(
            Fault::Problem(
                "the expected headers and received headers have different length expected: "@
                    + nat_text(schema.len()) + " actual: "@ + nat_text(fields.len()),
            ),
        )
    } else if exists|i: int| first_difference_at(fields, schema, i) {
        let i = choose|i: int| first_difference_at(fields, schema, i);
        Err(
            Fault::Problem(
                "The two header fields do not match left: "@ + fields[i].id + " right: "@
                    + schema[i].id,
            ),
        )
    } else {
        Ok(())
    }
}

fn count_text(n: usize) -> (r: String)
    ensures
        r@ == nat_text(n as nat),
{
    string_of_chars(&nat_chars(n as u64))
}

/// Checks declared fields against the expected ones, count first, then one by one.
pub fn check_fields(fields: &Vec<HeaderField>, expected: &Vec<HeaderField>) -> (r: Result<
    (),
    DataError,
>)
    ensures
        outcome_view(r) == schema_check(field_views(fields@), field_views(expected@)),
{
    let ghost a = field_views(fields@);
    let ghost b = field_views(expected@);
    if fields.len() != expected.len() {
        let mut msg = String::from_str(
            "the expected headers and received headers have different length expected: ",
        );
        msg.append(count_text(expected.len()).as_str());
        msg.append(" actual: ");
        msg.append(count_text(fields.len()).as_str());
        return Err(DataError::Problem(msg));
    }
    let mut i: usize = 0;
    while i < fields.len()
        invariant
            fields@.len() == expected@.len(),
            a == field_views(fields@),
            b == field_views(expected@),
            i <= fields@.len(),
            forall|j: int| 0 <= j < i ==> a[j] == b[j],
        decreases fields@.len() - i,
    {
        if !fields[i].same_as(&expected[i]) {
            proof {
                assert(first_difference_at(a, b, i as int));
                let c = choose|c: int| first_difference_at(a, b, c);
                if c < i {
                } else if c > i {
                    assert(a[i as int] == b[i as int]);
                }
            }
            let mut msg = String::from_str("The two header fields do not match left: ");
            msg.append(fields[i].id.as_str());
            msg.append(" right: ");
            msg.append(expected[i].id.as_str());
            return Err(DataError::Problem(msg));
        }
        i += 1;
    }
    proof {
        if exists|c: int| first_difference_at(a, b, c) {
            let c = choose|c: int| first_difference_at(a, b, c);
            assert(a[c] == b[c]);
        }
    }
    Ok(())
}

/// The cases dataset in the JSON layout: declared fields and raw rows.
#[derive(Clone, Debug)]
pub struct CasesByVacStatusRoot {
    pub fields: Vec<HeaderField>,
    pub records: Vec<Vec<RawValue>>,
}

fn expected_cases_header() -> (r: Vec<HeaderField>)
    ensures
        field_views(r@) == cases_schema(),
{
    let r = vec![
        HeaderField::new("_id", "int", HeaderFieldInfo::new("", "", "")),
        HeaderField::new("Date", "timestamp", HeaderFieldInfo::new("", "timestamp", "")),
        HeaderField::new("covid19_cases_unvac", "text", HeaderFieldInfo::new("", "", "")),
        HeaderField::new("covid19_cases_partial_vac", "text", HeaderFieldInfo::new("", "", "")),
        HeaderField::new("covid19_cases_full_vac", "text", HeaderFieldInfo::new("", "", "")),
        HeaderField::new("covid19_cases_vac_unknown", "text", HeaderFieldInfo::new("", "", "")),
        HeaderField::new("cases_unvac_rate_per100K", "text", HeaderFieldInfo::new("", "", "")),
        HeaderField::new(
            "cases_partial_vac_rate_per100K",
            "text",
            HeaderFieldInfo::new("", "", ""),
        ),
        HeaderField::new("cases_full_vac_rate_per100K", "text", HeaderFieldInfo::new("", "", "")),
        HeaderField::new("cases_unvac_rate_7ma", "text", HeaderFieldInfo::new("", "", "")),
        HeaderField::new("cases_partial_vac_rate_7ma", "text", HeaderFieldInfo::new("", "", "")),
        HeaderField::new("cases_full_vac_rate_7ma", "text", HeaderFieldInfo::new("", "", "")),
    ];
    assert(field_views(r@) =~= cases_schema());
    r
}

fn expected_hosp_header() -> (r: Vec<HeaderField>)
    ensures
        field_views(r@) == hosp_schema(),
{
    let r = vec![
        HeaderField::new("_id", "int", HeaderFieldInfo::new("", "", "")),
        HeaderField::new("date", "timestamp", HeaderFieldInfo::new("", "timestamp", "")),
        HeaderField::new("icu_unvac", "numeric", HeaderFieldInfo::new("", "numeric", "")),
        HeaderField::new("icu_partial_vac", "numeric", HeaderFieldInfo::new("", "numeric", "")),
        HeaderField::new("icu_full_vac", "numeric", HeaderFieldInfo::new("", "numeric", "")),
        HeaderField::new(
            "hospitalnonicu_unvac",
            "numeric",
            HeaderFieldInfo::new("", "numeric", ""),
        ),
        HeaderField::new(
            "hospitalnonicu_partial_vac",
            "numeric",
            HeaderFieldInfo::new("", "numeric", ""),
        ),
        HeaderField::new(
            "hospitalnonicu_full_vac",
            "numeric",
            HeaderFieldInfo::new("", "numeric", ""),
        ),
    ];
    assert(field_views(r@) =~= hosp_schema());
    r
}

impl CasesByVacStatusRoot {
    /// Checks the declared fields against the cases schema; a different field
    /// count is refused before any field is compared.
    pub fn validate(&self) -> (r: Result<(), DataError>)
        ensures
            outcome_view(r) == schema_check(field_views(self.fields@), cases_schema()),
            self.fields@.len() != cases_schema().len() ==> r is Err,
    {
        let expected = expected_cases_header();
        check_fields(&self.fields, &expected)
    }

    /// Reads the rows in order.
    pub fn into_iter(self) -> (r: CasesByVacStatusRootIterator)
        ensures
            r.root == self,
            r.index == 0,
    {
        CasesByVacStatusRootIterator { root: self, index: 0 }
    }
}

/// Reads the rows of a cases dataset in order.
pub struct CasesByVacStatusRootIterator {
    pub root: CasesByVacStatusRoot,
    pub index: usize,
}

impl CasesByVacStatusRootIterator {
    /// The record of the next row, or `None` after the last.
    pub fn next(&mut self) -> (r: Option<Result<CasesByVacStatus, DataError>>)
        ensures
            final(self).root == old(self).root,
            old(self).index < old(self).root.records@.len() ==> {
                &&& final(self).index == old(self).index + 1
                &&& r matches Some(x) && outcome_view(x) == cases_of_row(
                    old(self).root.records@[old(self).index as int]@,
                )
                &&& r matches Some(Ok(c)) ==> c.wf()
            },
            old(self).index >= old(self).root.records@.len() ==> r is None && final(self).index
                == old(self).index,
    {
        if self.index < self.root.records.len() {
            let rec = transform_record(self.root.records[self.index].as_slice());
            self.index = self.index + 1;
            Some(rec)
        } else {
            None
        }
    }
}

/// The hospitalization dataset in the JSON layout: declared fields and raw rows.
#[derive(Clone, Debug)]
pub struct HospitalizationByVacStatusRoot {
    pub fields: Vec<HeaderField>,
    pub records: Vec<Vec<RawValue>>,
}

impl HospitalizationByVacStatusRoot {
    /// Checks the declared fields against the hospitalization schema; a
    /// different field count is refused before any field is compared.
    pub fn validate(&self) -> (r: Result<(), DataError>)
        ensures
            outcome_view(r) == schema_check(field_views(self.fields@), hosp_schema()),
            self.fields@.len() != hosp_schema().len() ==> r is Err,
    {
        let expected = expected_hosp_header();
        check_fields(&self.fields, &expected)
    }

    /// Reads the rows in order.
    pub fn into_iter(self) -> (r: HospitalizationByVacStatusRootIterator)
        ensures
            r.root == self,
            r.index == 0,
    {
        HospitalizationByVacStatusRootIterator { root: self, index: 0 }
    }
}

/// Reads the rows of a hospitalization dataset in order.
pub struct HospitalizationByVacStatusRootIterator {
    pub root: HospitalizationByVacStatusRoot,
    pub index: usize,
}

impl HospitalizationByVacStatusRootIterator {
    /// The record of the next row, or `None` after the last.
    pub fn next(&mut self) -> (r: Option<Result<HospitalizationByVacStatus, DataError>>)
        ensures
            final(self).root == old(self).root,
            old(self).index < old(self).root.records@.len() ==> {
                &&& final(self).index == old(self).index + 1
                &&& r matches Some(x) && outcome_view(x) == hosp_of_row(
                    old(self).root.records@[old(self).index as int]@,
                )
                &&& r matches Some(Ok(h)) ==> h.wf()
            },
            old(self).index >= old(self).root.records@.len() ==> r is None && final(self).index
                == old(self).index,
    {
        if self.index < self.root.records.len() {
            let rec = transform_hosp_record(self.root.records[self.index].as_slice());
            self.index = self.index + 1;
            Some(rec)
        } else {
            None
        }
    }
}

/// The cases dataset in the CSV layout.
#[derive(Clone, Debug)]
pub struct CsvCasesRoot(pub Vec<CsvCase>);

impl CsvCasesRoot {
    /// Reads the rows in order.
    pub fn into_iter(self) -> (r: CsvCasesRootIterator)
        ensures
            r.records == self.0,
            r.index == 0,
    {
        CsvCasesRootIterator { records: self.0, index: 0 }
    }
}

/// Reads the rows of a CSV cases dataset in order.
pub struct CsvCasesRootIterator {
    pub records: Vec<CsvCase>,
    pub index: usize,
}

impl CsvCasesRootIterator {
    /// The record of the next row, or `None` after the last.
    pub fn next(&mut self) -> (r: Option<Result<CasesByVacStatus, DataError>>)
        requires
            forall|i: int| 0 <= i < old(self).records@.len() ==> (#[trigger] old(self).records@[i]).wf(),
        ensures
            final(self).records == old(self).records,
            old(self).index < old(self).records@.len() ==> {
                &&& final(self).index == old(self).index + 1
                &&& r matches Some(x) && outcome_view(x) == cases_of_csv(
                    old(self).records@[old(self).index as int],
                )
                &&& r matches Some(Ok(c)) ==> c.wf()
            },
            old(self).index >= old(self).records@.len() ==> r is None && final(self).index
                == old(self).index,
    {
        if self.index < self.records.len() {
            let rec = transform_csv_record(&self.records[self.index]);
            self.index = self.index + 1;
            Some(rec)
        } else {
            None
        }
    }
}

} // verus!
