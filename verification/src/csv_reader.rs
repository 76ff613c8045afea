//! One row of the table, with its fields as numbers.

use vstd::prelude::*;

verus! {

/// A row of the table. The fields stand in the order of the schema's columns.
#[derive(Debug, Copy, Clone)]
pub struct Record {
    pub age: u8,
    pub sex: u8,
    pub educ: u8,
    pub race: u8,
    pub income: u64,
    pub married: u8,
}

} // verus!
