//! Compiles a flat table description into a `CREATE TABLE` statement.
//!
//! A [`SqlTable`] describes a table by plain values: the declaring type's
//! identifier, an optional name override, the `IF NOT EXISTS` policy and the
//! ordered columns. [`expand`] resolves the table name, renders every column,
//! the primary-key clause and the foreign-key clauses, and returns the
//! statement together with the name.
pub mod data;
pub mod text;
pub mod reference;
pub mod naming;
pub mod expand;
pub mod laws;

pub use data::{ForeignKeyConstraint, GeneratedTable, SqlTable, SqlTableError, TableColumn, TableData};
pub use expand::{
    expand, field_to_sql_column, generate_create_table_sql, handle_foreign_key,
    rust_type_to_sql_type,
};
pub use naming::resolve_table_name;
