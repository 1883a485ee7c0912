//! What the items table is asked and with which values.
use vstd::prelude::*;
use crate::models::PostItem;

verus! {

/// Upper bound on open connections in the pool.
pub const MAX_CONNECTIONS: u32 = 5;

/// Reads every row of the items table, in the storage's own order.
pub const SELECT_ITEMS_SQL: &'static str = "SELECT * FROM items;";

/// Inserts one row from a name and a description, and gives back its id.
pub const INSERT_ITEM_SQL: &'static str =
    "INSERT INTO items (name, description) VALUES ($1, $2) RETURNING id";

/// The description that is stored for an optional one: itself, or the
/// empty string when it is absent.
pub open spec fn stored_description(d: Option<Seq<char>>) -> Seq<char> {
    match d {
        Some(s) => s,
        None => Seq::empty(),
    }
}

/// A storage operation failed; the cause is logged where it happened.
#[derive(Clone, Copy, Debug, PartialEq, Eq, Structural)]
pub enum StorageError {
    Failed,
}

/// The values bound to the insert statement, in order.
pub struct InsertParams {
    pub name: String,
    pub description: String,
}

/// The values to insert for a request body.
pub fn insert_params(item: &PostItem) -> (r: InsertParams)
    ensures
        r.name@ == item.name(),
        r.description@ == stored_description(item.description()),
{
    let name = item.get_name().to_owned();
    let description = match item.get_description() {
        Some(value) => value.clone(),
        None => String::new(),
    };
    InsertParams { name, description }
}

} // verus!
