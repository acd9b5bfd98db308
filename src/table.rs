//! Tables in comma-separated form, read through the csv crate.

use vstd::prelude::*;

verus! {

/// A bundled table that does not have the shape the schedule relies on.
#[derive(Clone, Copy, Debug, PartialEq, Eq, Structural)]
pub enum CorruptTable {
    /// The calendar has a rejected record, or a row for the date without a code.
    Calendar,
    /// The period templates lack the row of a rotation day, or it was rejected.
    Periods,
}

/// The records of a table, as the csv crate hands them out.
pub type Records = Seq<Option<Seq<Seq<char>>>>;

/// What the csv crate reads from `text` without a header row: one entry per
/// record in order, `None` for a record that the reader rejects.
pub uninterp spec fn csv_records(text: Seq<char>) -> Seq<Option<Seq<Seq<char>>>>;

/// What `str::trim` leaves of `s`.
pub uninterp spec fn trimmed(s: Seq<char>) -> Seq<char>;

/// Relies on csv's `ReaderBuilder` with `has_headers(false)` and on
/// `Reader::records`, which yields every record of the input in order, and an
/// error in place of a record it rejects.
#[verifier::external_body]
pub(crate) fn read_records(text: &str) -> (r: Vec<Option<Vec<String>>>)
    ensures
        r.deep_view() == csv_records(text@),
{
    let mut reader = csv::ReaderBuilder::new().has_headers(false).from_reader(text.as_bytes());
    reader.records().map(|rec| rec.ok().map(|fields| fields.iter().map(|f| f.to_string()).collect())).collect()
}

/// Relies on `str::trim`: the text without leading and trailing whitespace.
#[verifier::external_body]
pub(crate) fn trim(s: &str) -> (r: String)
    ensures
        r@ == trimmed(s@),
{
    s.trim().to_string()
}

/// Whether `s` holds exactly the text `t`.
pub(crate) fn text_is(s: &String, t: &str) -> (r: bool)
    ensures
        r == (s@ == t@),
{
    let owned = t.to_owned();
    s.eq(&owned)
}

} // verus!
