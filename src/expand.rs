//! The schema-to-DDL compiler.
use vstd::prelude::*;
use vstd::string::*;

use crate::data::{columns_view, GeneratedTable, SqlTable, TableData, TableView, ErrorView, ForeignKeyConstraint, ForeignKeyView, SqlTableError, TableColumn, ColumnView, foreign_keys_view};
use crate::naming::{resolve_table_name, table_name_of};
use crate::reference::{dot_free, lemma_reference_parts, lemma_split_dot, reference_parts, splits_as, valid_reference};
use crate::text::{clone_opt_text, join, join_texts, same_text, texts_view};

verus! {

/// The SQL type that a field type maps to when no explicit type is given.
/// Types outside the table fall back to `TEXT`.
pub open spec fn sql_type_of(ty: Seq<char>) -> Seq<char> {
    if ty == "String"@ || ty == "& str"@ || ty == "& String"@ {
        "TEXT"@
    } else if ty == "i32"@ || ty == "i16"@ || ty == "i8"@ || ty == "u32"@ || ty == "u16"@ || ty == "u8"@ {
        "INTEGER"@
    } else if ty == "i64"@ || ty == "u64"@ {
        "BIGINT"@
    } else if ty == "f32"@ || ty == "f64"@ {
        "REAL"@
    } else if ty == "bool"@ {
        "BOOLEAN"@
    } else if ty == "uuid :: Uuid"@ {
        "UUID"@
    } else {
        "TEXT"@
    }
}

/// Maps a field type, written as its tokens print, to its default SQL type.
pub fn rust_type_to_sql_type(ty: &str) -> (r: String)
    ensures
        r@ == sql_type_of(ty@),
{
    if same_text(ty, "String") || same_text(ty, "& str") || same_text(ty, "& String") {
        String::from_str("TEXT")
    } else if same_text(ty, "i32") || same_text(ty, "i16") || same_text(ty, "i8")
        || same_text(ty, "u32") || same_text(ty, "u16") || same_text(ty, "u8") {
        String::from_str("INTEGER")
    } else if same_text(ty, "i64") || same_text(ty, "u64") {
        String::from_str("BIGINT")
    } else if same_text(ty, "f32") || same_text(ty, "f64") {
        String::from_str("REAL")
    } else if same_text(ty, "bool") {
        String::from_str("BOOLEAN")
    } else if same_text(ty, "uuid :: Uuid") {
        String::from_str("UUID")
    } else {
        String::from_str("TEXT")
    }
}

/// The SQL type of a column: its explicit type when given, else the mapped one.
pub open spec fn column_type_of(c: ColumnView) -> Seq<char> {
    match c.column_type {
        Some(t) => t,
        None => sql_type_of(c.ty),
    }
}

/// `text` when `flag` holds, else nothing.
pub open spec fn when(flag: bool, text: Seq<char>) -> Seq<char> {
    if flag {
        text
    } else {
        Seq::empty()
    }
}

/// `prefix` followed by the value, when there is one.
pub open spec fn when_some(prefix: Seq<char>, value: Option<Seq<char>>) -> Seq<char> {
    match value {
        Some(v) => prefix + v,
        None => Seq::empty(),
    }
}

/// The definition of a column named `name`: its name and type, then its
/// constraints, always in the order `NOT NULL`, `UNIQUE`, `AUTOINCREMENT`,
/// `DEFAULT`.
pub open spec fn column_def_of(name: Seq<char>, c: ColumnView) -> Seq<char> {
    name + " "@ + column_type_of(c) + when(c.not_null, " NOT NULL"@) + when(c.unique, " UNIQUE"@)
        + when(c.auto_increment, " AUTOINCREMENT"@) + when_some(" DEFAULT "@, c.default)
}

/// Renders a column as its SQL definition.
pub fn field_to_sql_column(field: &TableColumn) -> (r: Result<String, SqlTableError>)
    ensures
        match field@.ident {
            Some(name) => r is Ok && r->Ok_0@ == column_def_of(name, field@),
            None => r is Err && r->Err_0@ == ErrorView::MissingColumnIdentifier,
        },
{
    let name = match &field.ident {
        Some(n) => n,
        None => return Err(SqlTableError::MissingColumnIdentifier),
    };
    let sql_type = match &field.column_type {
        Some(t) => t.clone(),
        None => rust_type_to_sql_type(field.ty.as_str()),
    };
    let mut def = name.clone();
    def.append(" ");
    def.append(sql_type.as_str());
    if field.not_null {
        def.append(" NOT NULL");
    }
    if field.unique {
        def.append(" UNIQUE");
    }
    if field.auto_increment {
        def.append(" AUTOINCREMENT");
    }
    if let Some(d) = &field.default {
        def.append(" DEFAULT ");
        def.append(d.as_str());
    }
    Ok(def)
}

/// The clause of one foreign key, led by the separator from what precedes it.
pub open spec fn foreign_key_clause(fk: ForeignKeyView) -> Seq<char> {
    ",\nFOREIGN KEY ("@ + fk.field_name + ") REFERENCES "@ + fk.referenced_table + "("@
        + fk.referenced_column + ")"@ + when_some(" ON DELETE "@, fk.on_delete) + when_some(
        " ON UPDATE "@,
        fk.on_update,
    )
}

/// The clauses of all foreign keys, in order.
pub open spec fn foreign_key_clauses(fks: Seq<ForeignKeyView>) -> Seq<char>
    decreases fks.len(),
{
    if fks.len() == 0 {
        Seq::empty()
    } else {
        foreign_key_clauses(fks.drop_last()) + foreign_key_clause(fks.last())
    }
}

/// The primary-key clause: absent when no column is a primary key.
pub open spec fn primary_key_clause(pks: Seq<Seq<char>>) -> Seq<char> {
    if pks.len() == 0 {
        Seq::empty()
    } else {
        ",\nPRIMARY KEY ("@ + join(pks, ", "@) + ")"@
    }
}

/// The whole `CREATE TABLE` statement.
pub open spec fn create_table_text(
    if_not_exists: bool,
    table_name: Seq<char>,
    columns: Seq<Seq<char>>,
    primary_keys: Seq<Seq<char>>,
    foreign_keys: Seq<ForeignKeyView>,
) -> Seq<char> {
    "CREATE TABLE"@ + when(if_not_exists, " IF NOT EXISTS"@) + " "@ + table_name + " (\n"@ + join(
        columns,
        ",\n"@,
    ) + primary_key_clause(primary_keys) + foreign_key_clauses(foreign_keys) + "\n);"@
}

/// Renders the clause of one foreign key.
fn foreign_key_sql(fk: &ForeignKeyConstraint) -> (r: String)
    ensures
        r@ == foreign_key_clause(fk@),
{
    let mut s = String::from_str(",\nFOREIGN KEY (");
    s.append(fk.field_name.as_str());
    s.append(") REFERENCES ");
    s.append(fk.referenced_table.as_str());
    s.append("(");
    s.append(fk.referenced_column.as_str());
    s.append(")");
    if let Some(a) = &fk.on_delete {
        s.append(" ON DELETE ");
        s.append(a.as_str());
    }
    if let Some(a) = &fk.on_update {
        s.append(" ON UPDATE ");
        s.append(a.as_str());
    }
    s
}

/// Assembles the `CREATE TABLE` statement from the table name, the column
/// definitions, the primary-key column names and the foreign keys, each in
/// declaration order.
pub fn generate_create_table_sql(
    create_if_exists: bool,
    table_name: &str,
    columns: &[String],
    primary_keys: &[String],
    foreign_keys: &[ForeignKeyConstraint],
) -> (r: String)
    ensures
        r@ == create_table_text(
            create_if_exists,
            table_name@,
            texts_view(columns@),
            texts_view(primary_keys@),
            foreign_keys_view(foreign_keys@),
        ),
{
    let mut sql = String::from_str("CREATE TABLE");
    if create_if_exists {
        sql.append(" IF NOT EXISTS");
    }
    sql.append(" ");
    sql.append(table_name);
    sql.append(" (\n");
    let body = join_texts(columns, ",\n");
    sql.append(body.as_str());
    if primary_keys.len() > 0 {
        let keys = join_texts(primary_keys, ", ");
        sql.append(",\nPRIMARY KEY (");
        sql.append(keys.as_str());
        sql.append(")");
    }
    let mut clauses = String::new();
    let mut i: usize = 0;
    while i < foreign_keys.len()
        invariant
            i <= foreign_keys@.len(),
            clauses@ == foreign_key_clauses(foreign_keys_view(foreign_keys@).subrange(0, i as int)),
        decreases foreign_keys@.len() - i,
    {
        let c = foreign_key_sql(&foreign_keys[i]);
        clauses.append(c.as_str());
        proof {
            let v = foreign_keys_view(foreign_keys@);
            assert(v.subrange(0, i + 1).drop_last() =~= v.subrange(0, i as int));
        }
        i = i + 1;
    }
    assert(foreign_keys_view(foreign_keys@).subrange(0, i as int) =~= foreign_keys_view(foreign_keys@));
    sql.append(clauses.as_str());
    sql.append("\n);");
    sql
}

/// Splits a reference into its table and column, when it is well-formed.
fn split_reference(raw: &str) -> (r: Option<(String, String)>)
    ensures
        r is Some <==> valid_reference(raw@),
        r is Some ==> splits_as(raw@, r->Some_0.0@, r->Some_0.1@),
{
    let n = raw.unicode_len();
    let mut d: usize = 0;
    while d < n && raw.get_char(d) != '.'
        invariant
            n == raw@.len(),
            d <= n,
            dot_free(raw@.subrange(0, d as int)),
        decreases n - d,
    {
        d = d + 1;
    }
    let mut ok = n > 0 && 0 < d && d < n - 1;
    proof {
        if !ok && valid_reference(raw@) {
            let (t, c) = reference_parts(raw@);
            lemma_reference_parts(raw@, t, c);
            lemma_split_dot(raw@, t, c);
            if d == n {
                assert(raw@.subrange(0, d as int)[t.len() as int] == '.');
            }
        }
    }
    let mut j: usize = if ok { d + 1 } else { n };
    while j < n
        invariant
            n == raw@.len(),
            d < n ==> raw@[d as int] == '.',
            ok ==> 0 < d && d + 1 < n,
            ok ==> d + 1 <= j <= n,
            ok ==> dot_free(raw@.subrange(d + 1, j as int)),
            !ok ==> !valid_reference(raw@),
            j <= n,
        decreases n - j,
    {
        if raw.get_char(j) == '.' {
            proof {
                if ok && valid_reference(raw@) {
                    let (t, c) = reference_parts(raw@);
                    lemma_reference_parts(raw@, t, c);
                    lemma_split_dot(raw@, t, c);
                }
            }
            ok = false;
        } else if ok {
        }
        j = j + 1;
    }
    if !ok {
        return None;
    }
    let table = raw.substring_char(0, d);
    let column = raw.substring_char(d + 1, n);
    assert(raw@ =~= table@ + seq!['.'] + column@);
    proof {
        lemma_reference_parts(raw@, table@, column@);
    }
    Some((String::from_str(table), String::from_str(column)))
}

/// The foreign key that a column named `name` declares by the reference `raw`.
pub open spec fn foreign_key_of(name: Seq<char>, raw: Seq<char>, c: ColumnView) -> ForeignKeyView {
    ForeignKeyView {
        field_name: name,
        referenced_table: reference_parts(raw).0,
        referenced_column: reference_parts(raw).1,
        on_delete: c.on_delete,
        on_update: c.on_update,
    }
}

/// Resolves the foreign key that a column declares, if any.
///
/// A column without a reference has none. A reference that is not two
/// non-empty segments joined by one `.` is an error naming the column and the
/// reference.
pub fn handle_foreign_key(field: &TableColumn) -> (r: Result<Option<ForeignKeyConstraint>, SqlTableError>)
    ensures
        match field@.foreign_key {
            None => r is Ok && r->Ok_0 is None,
            Some(raw) => match field@.ident {
                None => r is Err && r->Err_0@ == ErrorView::MissingColumnIdentifier,
                Some(name) => if valid_reference(raw) {
                    &&& r is Ok
                    &&& r->Ok_0 is Some
                    &&& (r->Ok_0->Some_0)@ == foreign_key_of(name, raw, field@)
                    &&& splits_as(raw, (r->Ok_0->Some_0)@.referenced_table, (r->Ok_0->Some_0)@.referenced_column)
                } else {
                    &&& r is Err
                    &&& r->Err_0@ == (ErrorView::InvalidForeignKeyFormat { field_name: name, raw_value: raw })
                },
            },
        },
{
    let raw = match &field.foreign_key {
        Some(raw) => raw,
        None => return Ok(None),
    };
    let name = match &field.ident {
        Some(n) => n,
        None => return Err(SqlTableError::MissingColumnIdentifier),
    };
    match split_reference(raw.as_str()) {
        Some((table, column)) => {
            proof {
                lemma_reference_parts(raw@, table@, column@);
            }
            Ok(
                Some(
                    ForeignKeyConstraint {
                        field_name: name.clone(),
                        referenced_table: table,
                        referenced_column: column,
                        on_delete: clone_opt_text(&field.on_delete),
                        on_update: clone_opt_text(&field.on_update),
                    },
                ),
            )
        },
        None => Err(
            SqlTableError::InvalidForeignKeyFormat { field_name: name.clone(), raw_value: raw.clone() },
        ),
    }
}

/// The name of a column known to have one.
pub open spec fn name_of(c: ColumnView) -> Seq<char> {
    c.ident->Some_0
}

/// Every column has a name.
pub open spec fn all_named(cols: Seq<ColumnView>) -> bool {
    forall|i: int| 0 <= i < cols.len() ==> (#[trigger] cols[i]).ident is Some
}

/// The definitions of the columns, in order.
pub open spec fn column_defs(cols: Seq<ColumnView>) -> Seq<Seq<char>> {
    cols.map_values(|c: ColumnView| column_def_of(name_of(c), c))
}

/// The names of the primary-key columns, in declaration order.
pub open spec fn primary_key_names(cols: Seq<ColumnView>) -> Seq<Seq<char>>
    decreases cols.len(),
{
    if cols.len() == 0 {
        Seq::empty()
    } else if cols.last().primary_key {
        primary_key_names(cols.drop_last()).push(name_of(cols.last()))
    } else {
        primary_key_names(cols.drop_last())
    }
}

/// The foreign keys of the columns that carry a reference, in declaration order.
pub open spec fn foreign_keys_of(cols: Seq<ColumnView>) -> Seq<ForeignKeyView>
    decreases cols.len(),
{
    if cols.len() == 0 {
        Seq::empty()
    } else {
        let c = cols.last();
        match c.foreign_key {
            Some(raw) => foreign_keys_of(cols.drop_last()).push(foreign_key_of(name_of(c), raw, c)),
            None => foreign_keys_of(cols.drop_last()),
        }
    }
}

/// The column carries a reference that is not well-formed.
pub open spec fn bad_reference(c: ColumnView) -> bool {
    c.foreign_key is Some && !valid_reference(c.foreign_key->Some_0)
}

/// Some column carries a reference that is not well-formed.
pub open spec fn has_bad_reference(cols: Seq<ColumnView>) -> bool {
    exists|i: int| 0 <= i < cols.len() && bad_reference(#[trigger] cols[i])
}

/// The first column whose reference is not well-formed.
pub open spec fn first_bad_reference(cols: Seq<ColumnView>) -> int {
    choose|i: int|
        0 <= i < cols.len() && bad_reference(#[trigger] cols[i]) && forall|j: int|
            0 <= j < i ==> !bad_reference(#[trigger] cols[j])
}

/// The statement that a table with these columns compiles to.
pub open spec fn table_sql(t: TableView, cols: Seq<ColumnView>) -> Seq<char> {
    create_table_text(
        t.if_not_exists,
        table_name_of(t),
        column_defs(cols),
        primary_key_names(cols),
        foreign_keys_of(cols),
    )
}

/// What a table description compiles to: its statement and its name, or the
/// first error met. A shape other than a record fails first; then a column
/// without a name; then the first column, in declaration order, whose
/// reference is not well-formed.
pub open spec fn expand_outcome(t: TableView) -> Result<(Seq<char>, Seq<char>), ErrorView> {
    match t.columns {
        None => Err(ErrorView::UnsupportedSchemaShape),
        Some(cols) => if !all_named(cols) {
            Err(ErrorView::MissingColumnIdentifier)
        } else if has_bad_reference(cols) {
            let c = cols[first_bad_reference(cols)];
            Err(
                ErrorView::InvalidForeignKeyFormat {
                    field_name: name_of(c),
                    raw_value: c.foreign_key->Some_0,
                },
            )
        } else {
            Ok((table_sql(t, cols), table_name_of(t)))
        },
    }
}

/// Compiles a table description into its `CREATE TABLE` statement and name.
pub fn expand(table_def: SqlTable) -> (r: Result<GeneratedTable, SqlTableError>)
    ensures
        match expand_outcome(table_def@) {
            Ok((sql, name)) => {
                &&& r is Ok
                &&& r->Ok_0.create_table_query@ == sql
                &&& r->Ok_0.table_name@ == name
            },
            Err(e) => r is Err && r->Err_0@ == e,
        },
{
    let table_name = resolve_table_name(&table_def);
    let fields = match &table_def.data {
        TableData::Struct(fields) => fields,
        TableData::Unsupported => return Err(SqlTableError::UnsupportedSchemaShape),
    };
    let ghost cols = columns_view(fields@);
    let mut columns: Vec<String> = Vec::new();
    let mut primary_keys: Vec<String> = Vec::new();
    let mut i: usize = 0;
    while i < fields.len()
        invariant
            cols == columns_view(fields@),
            table_def@.columns == Some(cols),
            i <= fields@.len(),
            all_named(cols.subrange(0, i as int)),
            texts_view(columns@) == column_defs(cols.subrange(0, i as int)),
            texts_view(primary_keys@) == primary_key_names(cols.subrange(0, i as int)),
        decreases fields@.len() - i,
    {
        let field = &fields[i];
        let ghost sub = cols.subrange(0, i as int);
        let ghost next = cols.subrange(0, i + 1);
        assert(next.drop_last() =~= sub);
        let name = match &field.ident {
            Some(n) => n,
            None => {
                assert(!all_named(cols) && cols[i as int].ident is None);
                return Err(SqlTableError::MissingColumnIdentifier);
            },
        };
        let def = match field_to_sql_column(field) {
            Ok(d) => d,
            Err(e) => return Err(e),
        };
        if field.primary_key {
            primary_keys.push(name.clone());
        }
        columns.push(def);
        proof {
            assert(column_defs(next) =~= column_defs(sub).push(column_def_of(name@, field@)));
            assert(all_named(next)) by {
                assert forall|k: int| 0 <= k < next.len() implies (#[trigger] next[k]).ident is Some by {
                    if k < i {
                        assert(next[k] == sub[k]);
                    }
                }
            }
        }
        i = i + 1;
    }
    assert(cols.subrange(0, i as int) =~= cols);
    let mut foreign_keys: Vec<ForeignKeyConstraint> = Vec::new();
    let mut i: usize = 0;
    while i < fields.len()
        invariant
            cols == columns_view(fields@),
            table_def@.columns == Some(cols),
            i <= fields@.len(),
            all_named(cols),
            forall|j: int| 0 <= j < i ==> !bad_reference(#[trigger] cols[j]),
            foreign_keys_view(foreign_keys@) == foreign_keys_of(cols.subrange(0, i as int)),
        decreases fields@.len() - i,
    {
        let field = &fields[i];
        let ghost sub = cols.subrange(0, i as int);
        let ghost next = cols.subrange(0, i + 1);
        assert(next.drop_last() =~= sub);
        match handle_foreign_key(field) {
            Ok(Some(fk)) => {
                foreign_keys.push(fk);
            },
            Ok(None) => {},
            Err(e) => {
                assert(bad_reference(cols[i as int]));
                return Err(e);
            },
        }
        i = i + 1;
    }
    let create_table_query = generate_create_table_sql(
        table_def.if_not_exists,
        table_name.as_str(),
        columns.as_slice(),
        primary_keys.as_slice(),
        foreign_keys.as_slice(),
    );
    Ok(GeneratedTable { table_name, create_table_query })
}

} // verus!
