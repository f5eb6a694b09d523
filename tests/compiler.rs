use derive_sql_table::{
    expand, field_to_sql_column, generate_create_table_sql, handle_foreign_key,
    resolve_table_name, rust_type_to_sql_type, ForeignKeyConstraint, SqlTable, SqlTableError,
    TableColumn, TableData,
};

fn table(ident: &str, columns: Vec<TableColumn>) -> SqlTable {
    SqlTable {
        ident: ident.to_string(),
        data: TableData::Struct(columns),
        name: None,
        if_not_exists: false,
    }
}

fn with_reference(name: &str, reference: &str) -> TableColumn {
    let mut c = TableColumn::new(name, "i32");
    c.foreign_key = Some(reference.to_string());
    c
}

fn complex_table() -> SqlTable {
    let mut id = TableColumn::new("id", "i32");
    id.primary_key = true;
    id.auto_increment = true;
    let mut user_id = with_reference("user_id", "users.id");
    user_id.on_delete = Some("CASCADE".to_string());
    let mut email = TableColumn::new("email", "String");
    email.unique = true;
    email.not_null = true;
    let mut created_at = TableColumn::new("created_at", "String");
    created_at.default = Some("NOW()".to_string());
    let mut t = table("ComplexTable", vec![id, user_id, email, created_at]);
    t.if_not_exists = true;
    t
}

#[test]
fn maps_field_types() {
    let cases = [
        ("String", "TEXT"),
        ("& str", "TEXT"),
        ("& String", "TEXT"),
        ("i8", "INTEGER"),
        ("i16", "INTEGER"),
        ("i32", "INTEGER"),
        ("u8", "INTEGER"),
        ("u16", "INTEGER"),
        ("u32", "INTEGER"),
        ("i64", "BIGINT"),
        ("u64", "BIGINT"),
        ("f32", "REAL"),
        ("f64", "REAL"),
        ("bool", "BOOLEAN"),
        ("uuid :: Uuid", "UUID"),
        ("Vec < u8 >", "TEXT"),
        ("I32", "TEXT"),
        ("", "TEXT"),
    ];
    for (ty, sql) in cases {
        assert_eq!(rust_type_to_sql_type(ty), sql, "type {}", ty);
    }
}

#[test]
fn constraints_render_in_fixed_order() {
    let mut c = TableColumn::new("stamp", "String");
    c.default = Some("NOW()".to_string());
    c.auto_increment = true;
    c.unique = true;
    c.not_null = true;
    assert_eq!(
        field_to_sql_column(&c).unwrap(),
        "stamp TEXT NOT NULL UNIQUE AUTOINCREMENT DEFAULT NOW()"
    );
}

#[test]
fn column_without_constraints() {
    let c = TableColumn::new("count", "u64");
    assert_eq!(field_to_sql_column(&c).unwrap(), "count BIGINT");
}

#[test]
fn explicit_column_type_replaces_mapped_type() {
    let mut c = TableColumn::new("created_at", "i32");
    c.column_type = Some("TIMESTAMP".to_string());
    c.unique = true;
    assert_eq!(field_to_sql_column(&c).unwrap(), "created_at TIMESTAMP UNIQUE");
}

#[test]
fn column_without_name_is_an_error() {
    let mut c = TableColumn::new("x", "i32");
    c.ident = None;
    assert_eq!(field_to_sql_column(&c), Err(SqlTableError::MissingColumnIdentifier));
}

#[test]
fn well_formed_reference_resolves() {
    let mut c = with_reference("user_id", "users.id");
    c.on_delete = Some("CASCADE".to_string());
    c.on_update = Some("SET NULL".to_string());
    let fk = handle_foreign_key(&c).unwrap().unwrap();
    assert_eq!(
        fk,
        ForeignKeyConstraint {
            field_name: "user_id".to_string(),
            referenced_table: "users".to_string(),
            referenced_column: "id".to_string(),
            on_delete: Some("CASCADE".to_string()),
            on_update: Some("SET NULL".to_string()),
        }
    );
}

#[test]
fn column_without_reference_has_no_foreign_key() {
    let c = TableColumn::new("id", "i32");
    assert_eq!(handle_foreign_key(&c), Ok(None));
}

#[test]
fn malformed_references_are_rejected() {
    for raw in ["usersid", ".id", "users.", ".", "", "a.b.c", "a..b"] {
        let c = with_reference("user_id", raw);
        assert_eq!(
            handle_foreign_key(&c),
            Err(SqlTableError::InvalidForeignKeyFormat {
                field_name: "user_id".to_string(),
                raw_value: raw.to_string(),
            }),
            "reference {:?}",
            raw
        );
    }
}

#[test]
fn error_message_names_column_and_reference() {
    let err = handle_foreign_key(&with_reference("owner", "usersid")).unwrap_err();
    let message = err.message();
    assert_eq!(
        message,
        "Invalid foreign key format 'owner' : 'usersid'. Expected format: 'table.column'"
    );
    assert_eq!(
        SqlTableError::UnsupportedSchemaShape.message(),
        "SqlTable only supports structs with named fields"
    );
    assert_eq!(
        SqlTableError::MissingColumnIdentifier.message(),
        "SqlTable columns must be named fields"
    );
}

#[test]
fn assembles_statement_exactly() {
    let fk = ForeignKeyConstraint {
        field_name: "b".to_string(),
        referenced_table: "o".to_string(),
        referenced_column: "x".to_string(),
        on_delete: Some("CASCADE".to_string()),
        on_update: Some("SET NULL".to_string()),
    };
    let sql = generate_create_table_sql(
        false,
        "t",
        &["a INTEGER".to_string(), "b TEXT".to_string()],
        &["a".to_string(), "b".to_string()],
        &[fk],
    );
    assert_eq!(
        sql,
        "CREATE TABLE t (\na INTEGER,\nb TEXT,\nPRIMARY KEY (a, b),\nFOREIGN KEY (b) REFERENCES o(x) ON DELETE CASCADE ON UPDATE SET NULL\n);"
    );
}

#[test]
fn foreign_key_with_update_only() {
    let fk = ForeignKeyConstraint {
        field_name: "b".to_string(),
        referenced_table: "o".to_string(),
        referenced_column: "x".to_string(),
        on_delete: None,
        on_update: Some("RESTRICT".to_string()),
    };
    let sql = generate_create_table_sql(true, "t", &["b TEXT".to_string()], &[], &[fk]);
    assert_eq!(
        sql,
        "CREATE TABLE IF NOT EXISTS t (\nb TEXT,\nFOREIGN KEY (b) REFERENCES o(x) ON UPDATE RESTRICT\n);"
    );
}

#[test]
fn complex_table_scenario() {
    let generated = expand(complex_table()).unwrap();
    let sql = &generated.create_table_query;
    assert!(sql.contains("CREATE TABLE IF NOT EXISTS complex_table ("));
    assert!(sql.contains("id INTEGER AUTOINCREMENT,"));
    assert!(sql.contains("email TEXT NOT NULL UNIQUE,"));
    assert!(sql.contains("created_at TEXT DEFAULT NOW(),"));
    assert!(sql.contains("PRIMARY KEY (id),"));
    assert!(sql.contains("FOREIGN KEY (user_id) REFERENCES users(id) ON DELETE CASCADE"));
    assert_eq!(
        sql,
        "CREATE TABLE IF NOT EXISTS complex_table (\nid INTEGER AUTOINCREMENT,\nuser_id INTEGER,\nemail TEXT NOT NULL UNIQUE,\ncreated_at TEXT DEFAULT NOW(),\nPRIMARY KEY (id),\nFOREIGN KEY (user_id) REFERENCES users(id) ON DELETE CASCADE\n);"
    );
    assert_eq!(generated.table_name, "complex_table");
}

#[test]
fn empty_table_has_empty_body() {
    let generated = expand(table("User", vec![])).unwrap();
    assert_eq!(generated.create_table_query, "CREATE TABLE user (\n\n);");
    assert_eq!(generated.table_name, "user");
}

#[test]
fn expanding_twice_gives_the_same_text() {
    let first = expand(complex_table()).unwrap();
    let second = expand(complex_table()).unwrap();
    assert_eq!(first, second);
}

#[test]
fn primary_key_clause_lists_flagged_columns_in_order() {
    let mut a = TableColumn::new("a", "i32");
    a.primary_key = true;
    let b = TableColumn::new("b", "i32");
    let mut c = TableColumn::new("c", "String");
    c.primary_key = true;
    let sql = expand(table("Pair", vec![a, b, c])).unwrap().create_table_query;
    assert_eq!(
        sql,
        "CREATE TABLE pair (\na INTEGER,\nb INTEGER,\nc TEXT,\nPRIMARY KEY (a, c)\n);"
    );
}

#[test]
fn no_primary_key_clause_without_flagged_columns() {
    let sql = expand(table("Plain", vec![TableColumn::new("a", "bool")]))
        .unwrap()
        .create_table_query;
    assert_eq!(sql, "CREATE TABLE plain (\na BOOLEAN\n);");
    assert!(!sql.contains("PRIMARY KEY"));
}

#[test]
fn explicit_name_overrides_identifier() {
    for ident in ["User", "ComplexTable", "x"] {
        let mut t = table(ident, vec![]);
        t.name = Some("Custom_Name".to_string());
        assert_eq!(resolve_table_name(&t), "Custom_Name");
    }
}

#[test]
fn identifier_is_snake_cased() {
    assert_eq!(resolve_table_name(&table("ComplexTable", vec![])), "complex_table");
    assert_eq!(resolve_table_name(&table("User", vec![])), "user");
}

#[test]
fn unsupported_shape_is_an_error() {
    let t = SqlTable {
        ident: "Pair".to_string(),
        data: TableData::Unsupported,
        name: None,
        if_not_exists: false,
    };
    assert_eq!(expand(t), Err(SqlTableError::UnsupportedSchemaShape));
}

#[test]
fn unnamed_column_fails_expansion() {
    let mut c = TableColumn::new("x", "i32");
    c.ident = None;
    let t = table("T", vec![with_reference("bad", "nodot"), c]);
    assert_eq!(expand(t), Err(SqlTableError::MissingColumnIdentifier));
}

#[test]
fn first_malformed_reference_is_reported() {
    let t = table(
        "T",
        vec![
            with_reference("good", "users.id"),
            with_reference("first", ".id"),
            with_reference("second", "usersid"),
        ],
    );
    assert_eq!(
        expand(t),
        Err(SqlTableError::InvalidForeignKeyFormat {
            field_name: "first".to_string(),
            raw_value: ".id".to_string(),
        })
    );
}
