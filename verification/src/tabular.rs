//! Delimited text, split into lines and lines into fields.
//!
//! Both splits are done by `opendp`; this module gives what they return a name
//! that contracts can speak of.

use crate::dataset::texts;
use vstd::prelude::*;

verus! {

/// The lines of `body`, as `opendp::transformations::make_split_lines` cuts them.
pub uninterp spec fn text_lines(body: Seq<char>) -> Seq<Seq<char>>;

/// The fields of each line, as `opendp::transformations::make_split_records`
/// cuts them at `separator`.
pub uninterp spec fn line_fields(separator: Seq<char>, lines: Seq<Seq<char>>) -> Seq<Seq<Seq<char>>>;

/// The texts that a vector of rows holds.
pub open spec fn tables(rows: Seq<Vec<String>>) -> Seq<Seq<Seq<char>>> {
    Seq::new(rows.len(), |i: int| texts(rows[i]@))
}

/// The rows of `body`: its lines, each cut into fields at `separator`.
pub open spec fn text_table(separator: Seq<char>, body: Seq<char>) -> Seq<Seq<Seq<char>>> {
    line_fields(separator, text_lines(body))
}

/// Calls `opendp::transformations::make_split_lines` and runs the
/// transformation on `body`. Neither step fails on any text, and what comes
/// back depends on the text alone.
#[verifier::external_body]
pub(crate) fn split_lines(body: &String) -> (r: Option<Vec<String>>)
    ensures
        r is Some,
        r matches Some(lines) ==> texts(lines@) == text_lines(body@),
{
    let stage = opendp::transformations::make_split_lines().ok()?;
    stage.invoke(body).ok()
}

/// Calls `opendp::transformations::make_split_records` with `separator` and
/// runs the transformation on `lines`. Neither step fails on any input, and
/// what comes back depends on the separator and the lines alone.
#[verifier::external_body]
pub(crate) fn split_records(separator: &str, lines: &Vec<String>) -> (r: Option<Vec<Vec<String>>>)
    ensures
        r is Some,
        r matches Some(rows) ==> tables(rows@) == line_fields(separator@, texts(lines@)),
{
    let stage = opendp::transformations::make_split_records(Some(separator)).ok()?;
    stage.invoke(lines).ok()
}

} // verus!
