//! The table's SQL name.
use convert_case::{Case, Casing};
use vstd::prelude::*;

use crate::data::{SqlTable, TableView};

verus! {

/// The snake-case form of an identifier, as convert_case computes it.
pub uninterp spec fn snake_case_of(s: Seq<char>) -> Seq<char>;

/// Relies on convert_case's `Casing::to_case` with `Case::Snake`: the text is
/// split at word boundaries, lower-cased and joined with `_`; the result depends
/// on the text alone.
#[verifier::external_body]
fn to_snake_case(s: &str) -> (r: String)
    ensures
        r@ == snake_case_of(s@),
{
    s.to_case(Case::Snake)
}

/// The name of a table: the explicit name when there is one, else the
/// snake-case form of the declaring identifier.
pub open spec fn table_name_of(t: TableView) -> Seq<char> {
    match t.name {
        Some(n) => n,
        None => snake_case_of(t.ident),
    }
}

/// Resolves the SQL name of a table.
pub fn resolve_table_name(table: &SqlTable) -> (r: String)
    ensures
        r@ == table_name_of(table@),
        table@.name is Some ==> r@ == table@.name->Some_0,
        table@.name is None ==> r@ == snake_case_of(table@.ident),
{
    match &table.name {
        Some(n) => n.clone(),
        None => to_snake_case(table.ident.as_str()),
    }
}

} // verus!
