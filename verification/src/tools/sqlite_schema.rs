//! The schema of a SQLite database as the schema tool reports it.
use vstd::prelude::*;

verus! {

/// The `sqlite_schema` tool.
pub struct SqliteSchema;

impl SqliteSchema {
    /// The tool's name.
    pub fn name() -> (r: &'static str)
        ensures
            r@ == "sqlite_schema"@,
    {
        "sqlite_schema"
    }

    /// The tool's description.
    pub fn description() -> (r: &'static str)
        ensures
            r@ == "Inspect SQLite database schema: tables, columns, indexes"@,
    {
        "Inspect SQLite database schema: tables, columns, indexes"
    }
}

/// A column of a table.
#[derive(Debug)]
pub struct ColumnInfo {
    pub name: String,
    pub data_type: String,
    pub not_null: bool,
    pub primary_key: bool,
    pub default_value: Option<String>,
}

/// An index of a table.
#[derive(Debug)]
pub struct IndexInfo {
    pub name: String,
    pub unique: bool,
    pub columns: Vec<String>,
}

/// A table with its columns, indexes, row count and creating statement.
#[derive(Debug)]
pub struct TableInfo {
    pub name: String,
    pub columns: Vec<ColumnInfo>,
    pub indexes: Vec<IndexInfo>,
    pub row_count: i64,
    pub sql: Option<String>,
}

/// What the schema tool reports.
#[derive(Debug)]
pub struct Output {
    pub success: bool,
    pub tables: Option<Vec<TableInfo>>,
    pub error: Option<String>,
}

} // verus!
