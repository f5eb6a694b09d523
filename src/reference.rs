//! The `table.column` form of a foreign-key reference.
use vstd::prelude::*;

verus! {

/// `s` holds no `.`.
pub open spec fn dot_free(s: Seq<char>) -> bool {
    forall|i: int| 0 <= i < s.len() ==> s[i] != '.'
}

/// `raw` is `table`, one `.`, then `column`, both non-empty and without a `.`.
pub open spec fn splits_as(raw: Seq<char>, table: Seq<char>, column: Seq<char>) -> bool {
    &&& table.len() > 0
    &&& column.len() > 0
    &&& dot_free(table)
    &&& dot_free(column)
    &&& raw == table + seq!['.'] + column
}

/// `raw` is a well-formed reference: exactly two non-empty segments joined by a `.`.
pub open spec fn valid_reference(raw: Seq<char>) -> bool {
    exists|table: Seq<char>, column: Seq<char>| splits_as(raw, table, column)
}

/// The table and column that a well-formed reference names.
pub open spec fn reference_parts(raw: Seq<char>) -> (Seq<char>, Seq<char>)
    recommends
        valid_reference(raw),
{
    choose|table: Seq<char>, column: Seq<char>| splits_as(raw, table, column)
}

/// In a well-formed reference the one `.` stands right after the table.
pub proof fn lemma_split_dot(raw: Seq<char>, table: Seq<char>, column: Seq<char>)
    requires
        splits_as(raw, table, column),
    ensures
        forall|j: int| 0 <= j < raw.len() ==> (raw[j] == '.' <==> j == table.len()),
{
    assert forall|j: int| 0 <= j < raw.len() implies (raw[j] == '.' <==> j == table.len()) by {
        if j < table.len() {
            assert(raw[j] == table[j]);
        } else if j > table.len() {
            assert(raw[j] == column[j - table.len() - 1]);
        }
    }
}

/// A reference splits in one way only.
pub proof fn lemma_split_unique(raw: Seq<char>, t1: Seq<char>, c1: Seq<char>, t2: Seq<char>, c2: Seq<char>)
    requires
        splits_as(raw, t1, c1),
        splits_as(raw, t2, c2),
    ensures
        t1 == t2,
        c1 == c2,
{
    lemma_split_dot(raw, t1, c1);
    lemma_split_dot(raw, t2, c2);
    assert(raw[t1.len() as int] == '.');
    assert(t1 =~= raw.subrange(0, t1.len() as int));
    assert(c1 =~= raw.subrange(t1.len() as int + 1, raw.len() as int));
    assert(t2 =~= raw.subrange(0, t2.len() as int));
    assert(c2 =~= raw.subrange(t2.len() as int + 1, raw.len() as int));
}

/// What [`reference_parts`] picks is the one split.
pub proof fn lemma_reference_parts(raw: Seq<char>, table: Seq<char>, column: Seq<char>)
    requires
        splits_as(raw, table, column),
    ensures
        valid_reference(raw),
        reference_parts(raw) == (table, column),
{
    assert(valid_reference(raw));
    let (t, c) = reference_parts(raw);
    lemma_split_unique(raw, table, column, t, c);
}

} // verus!
