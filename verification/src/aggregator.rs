//! Counting the rows of a table per bucket of one field.

use crate::dataset::{
    bucket_labels, bucket_strings, column_index, distinct, field_column,
    lemma_bucket_labels_distinct, texts, CsvDataSet, COLUMN_COUNT,
};
use crate::error::EngineError;
use crate::tabular::{split_lines, split_records, tables, text_table};
use vstd::prelude::*;

verus! {

/// How often `label` occurs among `values`.
pub open spec fn occurrences(values: Seq<Seq<char>>, label: Seq<char>) -> nat
    decreases values.len(),
{
    if values.len() == 0 {
        0
    } else {
        occurrences(values.drop_last(), label) + if values.last() == label {
            1nat
        } else {
            0nat
        }
    }
}

/// How many of `values` are one of `labels`.
pub open spec fn matched(values: Seq<Seq<char>>, labels: Seq<Seq<char>>) -> nat
    decreases values.len(),
{
    if values.len() == 0 {
        0
    } else {
        matched(values.drop_last(), labels) + if labels.contains(values.last()) {
            1nat
        } else {
            0nat
        }
    }
}

/// For each label in turn, how often it occurs among `values`.
pub open spec fn label_counts(values: Seq<Seq<char>>, labels: Seq<Seq<char>>) -> Seq<nat> {
    Seq::new(labels.len(), |i: int| occurrences(values, labels[i]))
}

/// The sum of a sequence of counts.
pub open spec fn total(counts: Seq<nat>) -> nat
    decreases counts.len(),
{
    if counts.len() == 0 {
        0
    } else {
        total(counts.drop_last()) + counts.last()
    }
}

/// The counts that a vector holds, as natural numbers.
pub open spec fn naturals(counts: Seq<u64>) -> Seq<nat> {
    Seq::new(counts.len(), |i: int| counts[i] as nat)
}

/// For each label in turn, one if it is `value` and zero if it is not.
pub open spec fn indicator(value: Seq<char>, labels: Seq<Seq<char>>) -> Seq<nat> {
    Seq::new(labels.len(), |i: int| if labels[i] == value { 1nat } else { 0nat })
}

/// The sum of two sequences added entry by entry is the sum of their sums.
pub proof fn lemma_total_pointwise(a: Seq<nat>, b: Seq<nat>, c: Seq<nat>)
    requires
        a.len() == c.len(),
        b.len() == c.len(),
        forall|i: int| 0 <= i < c.len() ==> c[i] == a[i] + b[i],
    ensures
        total(c) == total(a) + total(b),
    decreases c.len(),
{
    if c.len() > 0 {
        lemma_total_pointwise(a.drop_last(), b.drop_last(), c.drop_last());
    }
}

/// Among distinct labels a value is counted once if it is one of them, and
/// not at all if it is none.
pub proof fn lemma_total_indicator(value: Seq<char>, labels: Seq<Seq<char>>)
    requires
        distinct(labels),
    ensures
        total(indicator(value, labels)) == if labels.contains(value) { 1nat } else { 0nat },
    decreases labels.len(),
{
    if labels.len() > 0 {
        let front = labels.drop_last();
        lemma_total_indicator(value, front);
        assert(indicator(value, labels).drop_last() =~= indicator(value, front));
        if labels.last() == value {
            assert(labels[labels.len() - 1] == value);
            if front.contains(value) {
                let k = choose|k: int| 0 <= k < front.len() && front[k] == value;
                assert(labels[k] == value);
            }
        } else {
            if labels.contains(value) {
                let k = choose|k: int| 0 <= k < labels.len() && labels[k] == value;
                assert(front[k] == value);
            }
            if front.contains(value) {
                let k = choose|k: int| 0 <= k < front.len() && front[k] == value;
                assert(labels[k] == value);
            }
        }
    }
}

/// The counts of distinct labels add up to the number of values that are one
/// of the labels.
pub proof fn lemma_label_counts_total(values: Seq<Seq<char>>, labels: Seq<Seq<char>>)
    requires
        distinct(labels),
    ensures
        total(label_counts(values, labels)) == matched(values, labels),
    decreases values.len(),
{
    if values.len() == 0 {
        let zeros = label_counts(values, labels);
        lemma_total_pointwise(zeros, zeros, zeros);
    } else {
        let front = values.drop_last();
        lemma_label_counts_total(front, labels);
        lemma_total_indicator(values.last(), labels);
        lemma_total_pointwise(
            label_counts(front, labels),
            indicator(values.last(), labels),
            label_counts(values, labels),
        );
    }
}

/// How many of `values` are none of `labels`.
pub open spec fn unmatched(values: Seq<Seq<char>>, labels: Seq<Seq<char>>) -> nat
    decreases values.len(),
{
    if values.len() == 0 {
        0
    } else {
        unmatched(values.drop_last(), labels) + if labels.contains(values.last()) {
            0nat
        } else {
            1nat
        }
    }
}

/// Every row has one field for each column of the schema.
pub open spec fn well_formed(table: Seq<Seq<Seq<char>>>) -> bool {
    forall|i: int| 0 <= i < table.len() ==> (#[trigger] table[i]).len() == COLUMN_COUNT
}

/// What the rows of `table` hold in the column at `column`.
pub open spec fn column_of(table: Seq<Seq<Seq<char>>>, column: int) -> Seq<Seq<char>> {
    Seq::new(table.len(), |i: int| table[i][column])
}

/// The count vector of `field` over `table`: for each bucket label of the
/// field, in order, the number of rows that hold it in the field's column.
/// There is none where `field` is no column, or a row has too few or too many
/// fields.
pub open spec fn table_counts(table: Seq<Seq<Seq<char>>>, field: Seq<char>) -> Option<Seq<nat>> {
    match field_column(field) {
        Some(column) => if well_formed(table) {
            Some(label_counts(column_of(table, column), bucket_labels(field)))
        } else {
            None
        },
        None => None,
    }
}

/// Calls `opendp::transformations::make_count_by_categories` with
/// `categories` and `null_category`, and runs the transformation on `values`.
/// It is refused when a category occurs twice, and only then. The result
/// holds, for each category in order, the number of values equal to it; with
/// `null_category` one entry more follows, the number of values that are no
/// category.
#[verifier::external_body]
pub(crate) fn count_by_categories(
    values: &Vec<String>,
    categories: &Vec<String>,
    null_category: bool,
) -> (r: Option<Vec<u64>>)
    ensures
        r is Some <==> distinct(texts(categories@)),
        r matches Some(v) ==> v@.len() == categories@.len() + if null_category { 1nat } else { 0nat },
        r matches Some(v) ==> forall|i: int|
            0 <= i < categories@.len() ==> v@[i] as nat == occurrences(
                texts(values@),
                #[trigger] categories@[i]@,
            ),
        r matches Some(v) ==> null_category ==> v@[categories@.len() as int] as nat == unmatched(
            texts(values@),
            texts(categories@),
        ),
{
    let stage = opendp::transformations::make_count_by_categories::<
        opendp::metrics::L2Distance<u8>,
        String,
        u64,
    >(categories.clone(), null_category).ok()?;
    stage.invoke(values).ok()
}

/// What the rows hold in the column at `column`, or nothing if a row has too
/// few or too many fields.
pub fn project(rows: &Vec<Vec<String>>, column: usize) -> (r: Option<Vec<String>>)
    requires
        column < COLUMN_COUNT,
    ensures
        r is Some <==> well_formed(tables(rows@)),
        r matches Some(values) ==> texts(values@) == column_of(tables(rows@), column as int),
{
    let mut values: Vec<String> = Vec::new();
    let mut i: usize = 0;
    while i < rows.len()
        invariant
            i <= rows@.len(),
            column < COLUMN_COUNT,
            values@.len() == i,
            forall|k: int| 0 <= k < i ==> (#[trigger] tables(rows@)[k]).len() == COLUMN_COUNT,
            forall|k: int| 0 <= k < i ==> values@[k]@ == tables(rows@)[k][column as int],
        decreases rows@.len() - i,
    {
        let row = &rows[i];
        if row.len() != COLUMN_COUNT {
            assert(tables(rows@)[i as int].len() != COLUMN_COUNT);
            return None;
        }
        assert(tables(rows@)[i as int][column as int] == row@[column as int]@);
        values.push(row[column].clone());
        i = i + 1;
    }
    assert(texts(values@) =~= column_of(tables(rows@), column as int));
    Some(values)
}

/// Counts the rows per bucket of `field`.
///
/// The result is aligned with the bucket labels of the field: one count for
/// each, in their order, zero for a label that no row holds. A value that is
/// no bucket label is counted nowhere. The counts add up to the number of rows
/// whose value is one of the labels.
pub fn tally(rows: &Vec<Vec<String>>, field: &String) -> (r: Result<Vec<u64>, EngineError>)
    ensures
        match r {
            Ok(counts) => table_counts(tables(rows@), field@) == Some(naturals(counts@)),
            Err(e) => e == EngineError::Data && table_counts(tables(rows@), field@) is None,
        },
        r matches Ok(counts) ==> counts@.len() == bucket_labels(field@).len(),
        r matches Ok(counts) ==> field_column(field@) matches Some(column) && total(
            naturals(counts@),
        ) == matched(column_of(tables(rows@), column), bucket_labels(field@)),
{
    let column = match column_index(field) {
        Some(c) => c,
        None => {
            return Err(EngineError::Data);
        },
    };
    let values = match project(rows, column) {
        Some(v) => v,
        None => {
            return Err(EngineError::Data);
        },
    };
    let labels = bucket_strings(field);
    proof {
        lemma_bucket_labels_distinct(field@);
    }
    match count_by_categories(&values, &labels, true) {
        Some(mut counts) => {
            let ghost full = counts@;
            counts.pop();
            proof {
                let wanted = label_counts(texts(values@), bucket_labels(field@));
                assert forall|i: int| 0 <= i < labels@.len() implies naturals(counts@)[i]
                    == wanted[i] by {
                    assert(counts@[i] == full[i]);
                    assert(texts(labels@)[i] == labels@[i]@);
                }
                assert(naturals(counts@) =~= wanted);
                lemma_label_counts_total(texts(values@), bucket_labels(field@));
            }
            Ok(counts)
        },
        None => Err(EngineError::Data),
    }
}

/// The separator between the fields of a row.
pub open spec fn separator() -> Seq<char> {
    ","@
}

/// Counts the rows of `dataset` per bucket of `field`.
///
/// The rows are the lines of the text, cut into fields at the commas. The
/// aggregation fails as a whole if `field` is no column of the schema or a row
/// does not have one field for each column; else it gives the count vector of
/// the field.
pub fn aggregate(dataset: &CsvDataSet, field: &String) -> (r: Result<Vec<u64>, EngineError>)
    ensures
        match r {
            Ok(counts) => table_counts(text_table(separator(), dataset@), field@) == Some(
                naturals(counts@),
            ),
            Err(e) => e == EngineError::Data && table_counts(
                text_table(separator(), dataset@),
                field@,
            ) is None,
        },
        r matches Ok(counts) ==> counts@.len() == bucket_labels(field@).len(),
        r matches Ok(counts) ==> field_column(field@) matches Some(column) && total(
            naturals(counts@),
        ) == matched(column_of(text_table(separator(), dataset@), column), bucket_labels(field@)),
{
    let lines = match split_lines(dataset.data) {
        Some(l) => l,
        None => {
            return Err(EngineError::Data);
        },
    };
    let rows = match split_records(",", &lines) {
        Some(t) => t,
        None => {
            return Err(EngineError::Data);
        },
    };
    tally(&rows, field)
}

} // verus!
