//! The schema of the table and the data set that carries its text.

use crate::decimal::{decimal, decimal_string, lemma_decimal_injective};
use vstd::prelude::*;
use vstd::string::*;

verus! {

/// How many columns every row of the table has.
pub const COLUMN_COUNT: usize = 6;

/// How many buckets every field is counted into.
pub const BUCKET_COUNT: usize = 20;

/// The width of one income band.
pub const INCOME_BAND: u64 = 10000;

/// The names of the columns, in the order in which a row holds them.
pub open spec fn column_names() -> Seq<Seq<char>> {
    seq!["age"@, "sex"@, "educ"@, "race"@, "income"@, "married"@]
}

/// The number that the bucket at `index` of `field` stands for: income is
/// counted in bands of ten thousand, every other field by the codes 1 to 20.
pub open spec fn bucket_number(field: Seq<char>, index: int) -> nat {
    if field == "income"@ {
        ((index + 1) * INCOME_BAND) as nat
    } else {
        (index + 1) as nat
    }
}

/// The bucket labels of `field`, in their fixed order. They depend on the
/// field's name alone, never on the data.
pub open spec fn bucket_labels(field: Seq<char>) -> Seq<Seq<char>> {
    Seq::new(BUCKET_COUNT as nat, |i: int| decimal(bucket_number(field, i)))
}

/// The texts that a vector of strings holds.
pub open spec fn texts(v: Seq<String>) -> Seq<Seq<char>> {
    Seq::new(v.len(), |i: int| v[i]@)
}

/// No text occurs twice in `s`.
pub open spec fn distinct(s: Seq<Seq<char>>) -> bool {
    forall|i: int, j: int| 0 <= i < j < s.len() ==> s[i] != s[j]
}

/// No label occurs twice among the buckets of a field.
pub proof fn lemma_bucket_labels_distinct(field: Seq<char>)
    ensures
        distinct(bucket_labels(field)),
{
    let labels = bucket_labels(field);
    assert forall|i: int, j: int| 0 <= i < j < labels.len() implies labels[i] != labels[j] by {
        if labels[i] == labels[j] {
            lemma_decimal_injective(bucket_number(field, i), bucket_number(field, j));
        }
    }
}

/// A data set: the rows of the table as delimited text, without a header line.
pub struct CsvDataSet<'a> {
    pub data: &'a String,
}

impl<'a> View for CsvDataSet<'a> {
    type V = Seq<char>;

    open spec fn view(&self) -> Seq<char> {
        self.data@
    }
}

impl<'a> CsvDataSet<'a> {
    /// The names of the columns, in row order.
    pub fn columns(&self) -> (r: Vec<&'static str>)
        ensures
            r@.len() == COLUMN_COUNT,
            r.deep_view() == column_names(),
    {
        let r = vec!["age", "sex", "educ", "race", "income", "married"];
        assert(r.deep_view() =~= column_names());
        r
    }

    /// The bucket labels of `field`, in their fixed order.
    pub fn aggregate_buckets(&self, field: &String) -> (r: Vec<String>)
        ensures
            texts(r@) == bucket_labels(field@),
            r@.len() == BUCKET_COUNT,
    {
        bucket_strings(field)
    }
}

/// The bucket labels of `field`, in their fixed order.
pub fn bucket_strings(field: &String) -> (r: Vec<String>)
    ensures
        texts(r@) == bucket_labels(field@),
        r@.len() == BUCKET_COUNT,
{
    let income = String::from_str("income");
    let banded = *field == income;
    let mut labels: Vec<String> = Vec::new();
    let mut i: usize = 0;
    while i < BUCKET_COUNT
        invariant
            i <= BUCKET_COUNT,
            banded == (field@ == "income"@),
            labels@.len() == i,
            forall|k: int| 0 <= k < i ==> labels@[k]@ == decimal(bucket_number(field@, k)),
        decreases BUCKET_COUNT - i,
    {
        let step: u64 = (i + 1) as u64;
        let number: u64 = if banded { step * INCOME_BAND } else { step };
        labels.push(decimal_string(number));
        i = i + 1;
    }
    assert(texts(labels@) =~= bucket_labels(field@));
    labels
}

/// The place of `field` among the columns of a row, if it is one of them.
pub open spec fn field_column(field: Seq<char>) -> Option<int> {
    if field == "age"@ {
        Some(0)
    } else if field == "sex"@ {
        Some(1)
    } else if field == "educ"@ {
        Some(2)
    } else if field == "race"@ {
        Some(3)
    } else if field == "income"@ {
        Some(4)
    } else if field == "married"@ {
        Some(5)
    } else {
        None
    }
}

/// The place of `field` among the columns of a row, if it is one of them.
pub fn column_index(field: &String) -> (r: Option<usize>)
    ensures
        r matches Some(c) ==> field_column(field@) == Some(c as int) && c < COLUMN_COUNT,
        r is None ==> field_column(field@) is None,
{
    let names = vec!["age", "sex", "educ", "race", "income", "married"];
    assert(names.deep_view() =~= column_names());
    let mut i: usize = 0;
    while i < names.len()
        invariant
            i <= names@.len(),
            names@.len() == COLUMN_COUNT,
            names.deep_view() == column_names(),
            forall|k: int| 0 <= k < i ==> column_names()[k] != field@,
        decreases names@.len() - i,
    {
        let name = String::from_str(names[i]);
        assert(name@ == names.deep_view()[i as int]);
        if *field == name {
            return Some(i);
        }
        i = i + 1;
    }
    assert(forall|k: int| 0 <= k < 6 ==> column_names()[k] != field@);
    assert(column_names()[0] != field@);
    assert(column_names()[1] != field@);
    assert(column_names()[2] != field@);
    assert(column_names()[3] != field@);
    assert(column_names()[4] != field@);
    assert(column_names()[5] != field@);
    None
}

} // verus!
