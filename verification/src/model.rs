use vstd::prelude::*;

verus! {

/// An instant in UTC, as whole seconds since the Unix epoch and the
/// nanoseconds within that second (above 999_999_999 only in a leap second).
#[derive(Clone, Copy, Debug, PartialEq, Eq, Structural)]
pub struct Timestamp {
    pub secs: i64,
    pub nanos: u32,
}

/// A stored key/value model, as the `models` table holds it.
pub struct Model {
    pub id: u16,
    pub key: String,
    pub created_date: Timestamp,
    pub updated_date: Timestamp,
    pub value: String,
}

/// The row that adding a model inserts into the `models` table.
pub struct NewModel {
    pub key: String,
    pub value: String,
    pub created_date: Timestamp,
    pub updated_date: Timestamp,
}

/// Builds the row that is inserted when a model with `key` and `value` is
/// added at time `now`: a new model is created and last updated at the
/// same instant.
pub fn new_model_row(key: String, value: String, now: Timestamp) -> (row: NewModel)
    ensures
        row.key == key,
        row.value == value,
        row.created_date == now,
        row.updated_date == now,
{
    NewModel { key, value, created_date: now, updated_date: now }
}

} // verus!
