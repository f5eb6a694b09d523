//! The table description that the compiler consumes, and its abstract view.
use vstd::prelude::*;
use vstd::string::*;

verus! {

/// A struct that is mapped to an SQL table.
///
/// `ident` is the declaring type's name, used only when `name` is absent.
#[derive(Clone, Debug, PartialEq, Eq)]
pub struct SqlTable {
    /// Identifier of the declaring type.
    pub ident: String,
    /// The shape of the declaration, holding its fields when it is a record.
    pub data: TableData,
    /// Explicit table name; when absent the identifier in snake case is used.
    pub name: Option<String>,
    /// Whether the statement carries `IF NOT EXISTS`.
    pub if_not_exists: bool,
}

/// The shape of a table declaration.
#[derive(Clone, Debug, PartialEq, Eq)]
pub enum TableData {
    /// A record of fields, in declaration order.
    Struct(Vec<TableColumn>),
    /// Any other shape (tuple-style, unit-like or enum-like).
    Unsupported,
}

/// A field of the declaration, mapped to one column of the table.
#[derive(Clone, Debug, PartialEq, Eq)]
pub struct TableColumn {
    /// Column name; a column without one cannot be compiled.
    pub ident: Option<String>,
    /// The field's type as its tokens print (`i32`, `String`, `& str`,
    /// `uuid :: Uuid`), used to pick the default SQL type.
    pub ty: String,
    pub primary_key: bool,
    pub not_null: bool,
    pub unique: bool,
    pub auto_increment: bool,
    /// Explicit SQL type; replaces the one derived from `ty`.
    pub column_type: Option<String>,
    /// Foreign-key reference, written `table.column`.
    pub foreign_key: Option<String>,
    /// Raw SQL text placed after `DEFAULT`.
    pub default: Option<String>,
    /// `ON UPDATE` action of the foreign key.
    pub on_update: Option<String>,
    /// `ON DELETE` action of the foreign key.
    pub on_delete: Option<String>,
}

/// A foreign-key constraint derived from a column's reference.
#[derive(Clone, Debug, PartialEq, Eq)]
pub struct ForeignKeyConstraint {
    /// The referencing column of this table.
    pub field_name: String,
    /// The table referred to.
    pub referenced_table: String,
    /// The column referred to in that table.
    pub referenced_column: String,
    pub on_delete: Option<String>,
    pub on_update: Option<String>,
}

/// Why a table description could not be compiled.
#[derive(Clone, Debug, PartialEq, Eq)]
pub enum SqlTableError {
    /// A foreign-key reference is not two non-empty segments joined by one `.`.
    InvalidForeignKeyFormat { field_name: String, raw_value: String },
    /// A column has no name.
    MissingColumnIdentifier,
    /// The declaration is not a record of named fields.
    UnsupportedSchemaShape,
}

/// What a table compiles to: its SQL name and its `CREATE TABLE` statement.
#[derive(Clone, Debug, PartialEq, Eq)]
pub struct GeneratedTable {
    pub table_name: String,
    pub create_table_query: String,
}

/// Abstract view of a [`TableColumn`].
pub struct ColumnView {
    pub ident: Option<Seq<char>>,
    pub ty: Seq<char>,
    pub primary_key: bool,
    pub not_null: bool,
    pub unique: bool,
    pub auto_increment: bool,
    pub column_type: Option<Seq<char>>,
    pub foreign_key: Option<Seq<char>>,
    pub default: Option<Seq<char>>,
    pub on_update: Option<Seq<char>>,
    pub on_delete: Option<Seq<char>>,
}

/// Abstract view of a [`SqlTable`]; `columns` is `None` for an unsupported shape.
pub struct TableView {
    pub ident: Seq<char>,
    pub columns: Option<Seq<ColumnView>>,
    pub name: Option<Seq<char>>,
    pub if_not_exists: bool,
}

/// Abstract view of a [`ForeignKeyConstraint`].
pub struct ForeignKeyView {
    pub field_name: Seq<char>,
    pub referenced_table: Seq<char>,
    pub referenced_column: Seq<char>,
    pub on_delete: Option<Seq<char>>,
    pub on_update: Option<Seq<char>>,
}

/// Abstract view of a [`SqlTableError`].
pub enum ErrorView {
    InvalidForeignKeyFormat { field_name: Seq<char>, raw_value: Seq<char> },
    MissingColumnIdentifier,
    UnsupportedSchemaShape,
}

impl View for TableColumn {
    type V = ColumnView;

    open spec fn view(&self) -> ColumnView {
        ColumnView {
            ident: self.ident.deep_view(),
            ty: self.ty@,
            primary_key: self.primary_key,
            not_null: self.not_null,
            unique: self.unique,
            auto_increment: self.auto_increment,
            column_type: self.column_type.deep_view(),
            foreign_key: self.foreign_key.deep_view(),
            default: self.default.deep_view(),
            on_update: self.on_update.deep_view(),
            on_delete: self.on_delete.deep_view(),
        }
    }
}

/// The views of a sequence of columns.
pub open spec fn columns_view(cols: Seq<TableColumn>) -> Seq<ColumnView> {
    cols.map_values(|c: TableColumn| c@)
}

impl View for SqlTable {
    type V = TableView;

    open spec fn view(&self) -> TableView {
        TableView {
            ident: self.ident@,
            columns: match self.data {
                TableData::Struct(cols) => Some(columns_view(cols@)),
                TableData::Unsupported => None,
            },
            name: self.name.deep_view(),
            if_not_exists: self.if_not_exists,
        }
    }
}

impl View for ForeignKeyConstraint {
    type V = ForeignKeyView;

    open spec fn view(&self) -> ForeignKeyView {
        ForeignKeyView {
            field_name: self.field_name@,
            referenced_table: self.referenced_table@,
            referenced_column: self.referenced_column@,
            on_delete: self.on_delete.deep_view(),
            on_update: self.on_update.deep_view(),
        }
    }
}

/// The views of a sequence of foreign-key constraints.
pub open spec fn foreign_keys_view(fks: Seq<ForeignKeyConstraint>) -> Seq<ForeignKeyView> {
    fks.map_values(|f: ForeignKeyConstraint| f@)
}

impl View for SqlTableError {
    type V = ErrorView;

    open spec fn view(&self) -> ErrorView {
        match self {
            SqlTableError::InvalidForeignKeyFormat { field_name, raw_value } =>
                ErrorView::InvalidForeignKeyFormat { field_name: field_name@, raw_value: raw_value@ },
            SqlTableError::MissingColumnIdentifier => ErrorView::MissingColumnIdentifier,
            SqlTableError::UnsupportedSchemaShape => ErrorView::UnsupportedSchemaShape,
        }
    }
}

impl TableColumn {
    /// A column with a name and a field type, and no constraint.
    pub fn new(ident: &str, ty: &str) -> (r: TableColumn)
        ensures
            r@ == (ColumnView {
                ident: Some(ident@),
                ty: ty@,
                primary_key: false,
                not_null: false,
                unique: false,
                auto_increment: false,
                column_type: None,
                foreign_key: None,
                default: None,
                on_update: None,
                on_delete: None,
            }),
    {
        TableColumn {
            ident: Some(String::from_str(ident)),
            ty: String::from_str(ty),
            primary_key: false,
            not_null: false,
            unique: false,
            auto_increment: false,
            column_type: None,
            foreign_key: None,
            default: None,
            on_update: None,
            on_delete: None,
        }
    }
}

/// The message that describes an error; a malformed reference is quoted
/// together with the column that carries it.
pub open spec fn error_message(e: ErrorView) -> Seq<char> {
    match e {
        ErrorView::InvalidForeignKeyFormat { field_name, raw_value } =>
            "Invalid foreign key format '"@ + field_name + "' : '"@ + raw_value
                + "'. Expected format: 'table.column'"@,
        ErrorView::MissingColumnIdentifier => "SqlTable columns must be named fields"@,
        ErrorView::UnsupportedSchemaShape => "SqlTable only supports structs with named fields"@,
    }
}

impl SqlTableError {
    /// A readable description of the error.
    pub fn message(&self) -> (r: String)
        ensures
            r@ == error_message(self@),
    {
        match self {
            SqlTableError::InvalidForeignKeyFormat { field_name, raw_value } => {
                let mut m = String::from_str("Invalid foreign key format '");
                m.append(field_name.as_str());
                m.append("' : '");
                m.append(raw_value.as_str());
                m.append("'. Expected format: 'table.column'");
                m
            },
            SqlTableError::MissingColumnIdentifier => String::from_str(
                "SqlTable columns must be named fields",
            ),
            SqlTableError::UnsupportedSchemaShape => String::from_str(
                "SqlTable only supports structs with named fields",
            ),
        }
    }
}

} // verus!
