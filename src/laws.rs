//! Laws that relate the compiler's parts.
use vstd::prelude::*;

use crate::data::{ColumnView, ErrorView, SqlTable, TableView};
use crate::expand::{
    column_def_of, column_type_of, create_table_text, expand_outcome, foreign_keys_of,
    has_bad_reference, name_of, primary_key_clause, primary_key_names,
};
use crate::naming::{snake_case_of, table_name_of};
use crate::reference::{dot_free, lemma_reference_parts, lemma_split_dot, reference_parts,
    splits_as, valid_reference};
use crate::text::join;

verus! {

/// An explicit name is the table's name, whatever the identifier.
pub proof fn lemma_explicit_name_wins(a: TableView, b: TableView)
    requires
        a.name is Some,
        b.name == a.name,
    ensures
        table_name_of(a) == a.name->Some_0,
        table_name_of(a) == table_name_of(b),
{
}

/// Without an explicit name, the table's name is the snake-case form of the
/// identifier.
pub proof fn lemma_identifier_name(t: TableView)
    requires
        t.name is None,
    ensures
        table_name_of(t) == snake_case_of(t.ident),
{
}

/// A column with every constraint set renders them as
/// `NOT NULL UNIQUE AUTOINCREMENT DEFAULT <value>`, in that order.
pub proof fn lemma_constraint_order(c: ColumnView, default: Seq<char>)
    requires
        c.ident is Some,
        c.not_null,
        c.unique,
        c.auto_increment,
        c.default == Some(default),
    ensures
        column_def_of(name_of(c), c) == name_of(c) + " "@ + column_type_of(c)
            + " NOT NULL UNIQUE AUTOINCREMENT DEFAULT "@ + default,
{
    reveal_strlit(" NOT NULL");
    reveal_strlit(" UNIQUE");
    reveal_strlit(" AUTOINCREMENT");
    reveal_strlit(" DEFAULT ");
    reveal_strlit(" NOT NULL UNIQUE AUTOINCREMENT DEFAULT ");
    assert(" NOT NULL"@ + " UNIQUE"@ + " AUTOINCREMENT"@ + " DEFAULT "@
        =~= " NOT NULL UNIQUE AUTOINCREMENT DEFAULT "@);
    let head = name_of(c) + " "@ + column_type_of(c);
    assert(column_def_of(name_of(c), c) =~= head + (" NOT NULL"@ + " UNIQUE"@ + " AUTOINCREMENT"@
        + " DEFAULT "@) + default);
}

/// The primary-key clause is there exactly when some column is a primary key,
/// and it lists the names of exactly those columns, in declaration order.
pub proof fn lemma_primary_key_clause(cols: Seq<ColumnView>)
    ensures
        primary_key_clause(primary_key_names(cols)).len() > 0 <==> exists|i: int|
            0 <= i < cols.len() && (#[trigger] cols[i]).primary_key,
        primary_key_names(cols) == cols.filter(|c: ColumnView| c.primary_key).map_values(
            |c: ColumnView| name_of(c),
        ),
    decreases cols.len(),
{
    reveal_strlit(",\nPRIMARY KEY (");
    if cols.len() > 0 {
        let rest = cols.drop_last();
        lemma_primary_key_clause(rest);
        reveal(Seq::filter);
        let fr = rest.filter(|c: ColumnView| c.primary_key);
        let fc = cols.filter(|c: ColumnView| c.primary_key);
        assert(fc == if cols.last().primary_key {
            fr.push(cols.last())
        } else {
            fr
        });
        if cols.last().primary_key {
            assert(fr.push(cols.last()).map_values(|c: ColumnView| name_of(c)) =~= fr.map_values(
                |c: ColumnView| name_of(c),
            ).push(name_of(cols.last())));
        }
        if primary_key_names(cols).len() == 0 {
            assert forall|i: int| 0 <= i < cols.len() implies !(#[trigger] cols[i]).primary_key by {
                if i < rest.len() {
                    assert(rest[i] == cols[i]);
                }
            }
        } else if !cols.last().primary_key {
            let k = choose|i: int| 0 <= i < rest.len() && (#[trigger] rest[i]).primary_key;
            assert(cols[k] == rest[k]);
        }
    }
}

/// Without a `.`, or with a `.` first or last, a reference is malformed; a
/// well-formed one names the segments on either side of its `.`.
pub proof fn lemma_reference_shape(raw: Seq<char>, table: Seq<char>, column: Seq<char>)
    ensures
        dot_free(raw) ==> !valid_reference(raw),
        raw.len() > 0 && raw[0] == '.' ==> !valid_reference(raw),
        raw.len() > 0 && raw.last() == '.' ==> !valid_reference(raw),
        splits_as(raw, table, column) ==> reference_parts(raw) == (table, column),
{
    if valid_reference(raw) {
        let (t, c) = reference_parts(raw);
        lemma_reference_parts(raw, t, c);
        lemma_split_dot(raw, t, c);
        assert(raw[t.len() as int] == '.');
    }
    if splits_as(raw, table, column) {
        lemma_reference_parts(raw, table, column);
    }
}

/// Compiling a table description depends on its content alone: two
/// descriptions with the same content compile to the same statement and name.
pub proof fn lemma_expand_deterministic(a: SqlTable, b: SqlTable)
    requires
        a@ == b@,
    ensures
        expand_outcome(a@) == expand_outcome(b@),
{
}

/// A table without columns or explicit name compiles to an empty body under
/// the snake-case form of its identifier.
pub proof fn lemma_empty_table(t: TableView)
    requires
        t.columns == Some(Seq::<ColumnView>::empty()),
        t.name is None,
        !t.if_not_exists,
    ensures
        expand_outcome(t) == Ok::<(Seq<char>, Seq<char>), ErrorView>(
            (
                "CREATE TABLE "@ + snake_case_of(t.ident) + " (\n\n);"@,
                snake_case_of(t.ident),
            ),
        ),
{
    let cols = Seq::<ColumnView>::empty();
    reveal_strlit("CREATE TABLE");
    reveal_strlit(" ");
    reveal_strlit("CREATE TABLE ");
    reveal_strlit(" (\n");
    reveal_strlit("\n);");
    reveal_strlit(" (\n\n);");
    let name = snake_case_of(t.ident);
    assert(create_table_text(false, name, Seq::empty(), Seq::empty(), Seq::empty())
        =~= "CREATE TABLE "@ + name + " (\n\n);"@);
}

} // verus!
