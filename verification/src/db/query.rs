//! Statements for SQLite, written by the `sea_query` builder.
//!
//! The functions here hand the builder a table, columns and values and take
//! back the statement's text and the values it binds. The text is the
//! builder's own; this library names it and does not describe it.

use crate::db::projects::Timestamp;
use sea_query::{Alias, Expr, Query, SqliteQueryBuilder, Value};
use sea_query_binder::{SqlxBinder, SqlxValues};
use vstd::prelude::*;

verus! {

/// A value that a statement binds to a placeholder.
pub enum SqlValue {
    Uuid(u128),
    Text(Seq<char>),
    DateTime(Timestamp),
    Unsigned(u64),
}

/// The values that travel with a statement's text to the database driver.
#[verifier::external_type_specification]
#[verifier::external_body]
pub struct ExSqlxValues(SqlxValues);

/// A value in the builder's own representation.
#[verifier::external_type_specification]
#[verifier::external_body]
pub struct ExValue(Value);

/// What a value of the builder holds.
pub uninterp spec fn held(value: Value) -> SqlValue;

/// What the values of `row` hold, one by one.
pub open spec fn held_all(row: Seq<Value>) -> Seq<SqlValue> {
    row.map_values(|value: Value| held(value))
}

/// The values that `values` binds, in the order of the statement's
/// placeholders.
pub uninterp spec fn bound_values(values: SqlxValues) -> Seq<SqlValue>;

/// The text of the `INSERT` that the builder writes for one row.
pub uninterp spec fn insert_text(table: Seq<char>, columns: Seq<Seq<char>>, row: Seq<SqlValue>) -> Seq<char>;

/// The text of the `UPDATE` that the builder writes for one keyed row.
pub uninterp spec fn update_text(
    table: Seq<char>,
    columns: Seq<Seq<char>>,
    row: Seq<SqlValue>,
    key: Seq<char>,
    id: SqlValue,
) -> Seq<char>;

/// The text of the `DELETE` that the builder writes for one keyed row.
pub uninterp spec fn delete_text(table: Seq<char>, key: Seq<char>, id: SqlValue) -> Seq<char>;

/// The text of the `SELECT` that the builder writes for keyed rows, with a
/// limit on their number.
pub uninterp spec fn select_text(
    table: Seq<char>,
    columns: Seq<Seq<char>>,
    key: Seq<char>,
    id: SqlValue,
    limit: u64,
) -> Seq<char>;

/// The text of the `SELECT` that the builder writes for one page of rows:
/// at most `limit` of them, after the first `offset`.
pub uninterp spec fn page_text(table: Seq<char>, columns: Seq<Seq<char>>, limit: u64, offset: u64) -> Seq<char>;

/// `Value::from` on a `Uuid`, which `Uuid::from_u128` makes of `id`. The
/// value holds the identifier.
#[verifier::external_body]
pub(crate) fn uuid_value(id: u128) -> (value: Value)
    ensures
        held(value) == SqlValue::Uuid(id),
{
    Value::from(uuid::Uuid::from_u128(id))
}

/// `Value::from` on a `String`. The value holds a copy of the text.
#[verifier::external_body]
pub(crate) fn text_value(text: &String) -> (value: Value)
    ensures
        held(value) == SqlValue::Text(text@),
{
    Value::from(text.clone())
}

/// `Value::from` on a `DateTime<Utc>`, which `DateTime::from_timestamp_nanos`
/// makes of `at`. That function takes every count of nanoseconds, and the
/// value holds the instant.
#[verifier::external_body]
pub(crate) fn time_value(at: Timestamp) -> (value: Value)
    ensures
        held(value) == SqlValue::DateTime(at),
{
    Value::from(chrono::DateTime::from_timestamp_nanos(at.nanos))
}

/// `InsertStatement::build_sqlx` for SQLite, on a statement of one row.
/// The builder writes one placeholder for each value of the row and binds
/// the values in the row's order. It refuses a row whose length is not that
/// of the columns.
#[verifier::external_body]
pub(crate) fn insert(table: &str, columns: &Vec<String>, row: Vec<Value>) -> (query: (String, SqlxValues))
    requires
        columns.len() == row.len(),
    ensures
        query.0@ == insert_text(table@, columns.deep_view(), held_all(row@)),
        bound_values(query.1) == held_all(row@),
{
    Query::insert()
        .into_table(Alias::new(table))
        .columns(columns.iter().map(|c| Alias::new(c.as_str())))
        .values_panic(row.into_iter().map(|v| v.into()))
        .build_sqlx(SqliteQueryBuilder)
}

/// `UpdateStatement::build_sqlx` for SQLite, on a statement that sets
/// `columns` to `row` where `key` equals `id`. The builder binds the values
/// of the row in their order and then `id`.
#[verifier::external_body]
pub(crate) fn update(table: &str, columns: &Vec<String>, row: Vec<Value>, key: &str, id: Value) -> (query: (
    String,
    SqlxValues,
))
    requires
        columns.len() == row.len(),
    ensures
        query.0@ == update_text(table@, columns.deep_view(), held_all(row@), key@, held(id)),
        bound_values(query.1) == held_all(row@).push(held(id)),
{
    Query::update()
        .table(Alias::new(table))
        .values(columns.iter().zip(row.into_iter()).map(|(c, v)| (Alias::new(c.as_str()), v.into())))
        .and_where(Expr::col(Alias::new(key)).eq(id))
        .build_sqlx(SqliteQueryBuilder)
}

/// `DeleteStatement::build_sqlx` for SQLite, on a statement that deletes
/// where `key` equals `id`. The builder binds `id` alone.
#[verifier::external_body]
pub(crate) fn delete(table: &str, key: &str, id: Value) -> (query: (String, SqlxValues))
    ensures
        query.0@ == delete_text(table@, key@, held(id)),
        bound_values(query.1) == seq![held(id)],
{
    Query::delete()
        .from_table(Alias::new(table))
        .and_where(Expr::col(Alias::new(key)).eq(id))
        .build_sqlx(SqliteQueryBuilder)
}

/// `SelectStatement::build_sqlx` for SQLite, on a statement that selects
/// `columns` where `key` equals `id`, at most `limit` rows. The builder
/// binds `id` and then the limit.
#[verifier::external_body]
pub(crate) fn select(table: &str, columns: &Vec<String>, key: &str, id: Value, limit: u64) -> (query: (
    String,
    SqlxValues,
))
    ensures
        query.0@ == select_text(table@, columns.deep_view(), key@, held(id), limit),
        bound_values(query.1) == seq![held(id), SqlValue::Unsigned(limit)],
{
    Query::select()
        .columns(columns.iter().map(|c| Alias::new(c.as_str())))
        .from(Alias::new(table))
        .and_where(Expr::col(Alias::new(key)).eq(id))
        .limit(limit)
        .build_sqlx(SqliteQueryBuilder)
}

/// `SelectStatement::build_sqlx` for SQLite, on a statement that selects
/// `columns` of at most `limit` rows after the first `offset`. The builder
/// binds the limit and then the offset.
#[verifier::external_body]
pub(crate) fn select_page(table: &str, columns: &Vec<String>, limit: u64, offset: u64) -> (query: (
    String,
    SqlxValues,
))
    ensures
        query.0@ == page_text(table@, columns.deep_view(), limit, offset),
        bound_values(query.1) == seq![SqlValue::Unsigned(limit), SqlValue::Unsigned(offset)],
{
    Query::select()
        .columns(columns.iter().map(|c| Alias::new(c.as_str())))
        .from(Alias::new(table))
        .limit(limit)
        .offset(offset)
        .build_sqlx(SqliteQueryBuilder)
}

} // verus!
