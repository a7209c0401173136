//! The query executor: owns one open connection to the corpus store,
//! prepares and binds the built statement, and exposes the results as a
//! lazy, single-pass cursor of typed records.
//!
//! The store itself is reached through rusqlite; every call into it
//! stands behind a small trusted wrapper whose contract Verus believes.

use vstd::prelude::*;

use crate::builder::args_of;
use crate::builder::construct_query;
use crate::builder::sql_of;
use crate::params::QueryParams;
use crate::params::Record;
use crate::params::Value;
use crate::params::ValueModel;

verus! {

#[verifier::external_type_specification]
#[verifier::external_body]
pub struct ExConnection(rusqlite::Connection);

#[verifier::external_type_specification]
#[verifier::external_body]
pub struct ExStatement<'conn>(rusqlite::Statement<'conn>);

#[verifier::external_type_specification]
#[verifier::external_body]
pub struct ExRows<'stmt>(rusqlite::Rows<'stmt>);

#[verifier::external_type_specification]
#[verifier::external_body]
pub struct ExRow<'stmt>(rusqlite::Row<'stmt>);

#[verifier::external_type_specification]
#[verifier::external_body]
pub struct ExSqliteError(rusqlite::Error);

/// A terminal failure of one store operation. The store is a local,
/// read-only file, so none of these is transient: callers abort the
/// operation rather than retry.
#[derive(Debug, Clone, Copy, PartialEq, Eq, Structural)]
pub enum DbError {
    /// The corpus file is missing, unreadable, or not a valid store.
    Open,
    /// The statement text could not be compiled (a builder defect).
    Prepare,
    /// The arguments could not be bound to the prepared statement.
    Bind,
    /// Retrieving the next row failed mid-traversal.
    Step,
    /// A column was missing or of the wrong type (schema drift).
    Column,
}

/// Relies on rusqlite::Connection::open_with_flags with the read-only
/// flag: opens the store at the given path without creating it, and
/// fails if the file is missing, unreadable, or not a valid store.
#[verifier::external_body]
fn open_readonly(path: &str) -> Result<rusqlite::Connection, rusqlite::Error> {
    rusqlite::Connection::open_with_flags(path, rusqlite::OpenFlags::SQLITE_OPEN_READ_ONLY)
}

/// Relies on rusqlite::Connection::prepare: compiles the statement
/// text, failing when the text is not valid SQL for the open store,
/// holds more than one statement, or is over the store's length limit.
pub assume_specification<'conn>[ rusqlite::Connection::prepare ](
    conn: &'conn rusqlite::Connection,
    sql: &str,
) -> Result<rusqlite::Statement<'conn>, rusqlite::Error>;

/// Relies on rusqlite::Statement::query: binds the given values
/// positionally, in order, as the statement's parameters, and starts the
/// traversal of the matching rows.
#[verifier::external_body]
fn stmt_query<'s, 'conn>(
    stmt: &'s mut rusqlite::Statement<'conn>,
    args: &Vec<Value>,
) -> Result<rusqlite::Rows<'s>, rusqlite::Error> {
    let bound = args.iter().map(|v| match v {
        Value::Int(i) => rusqlite::types::Value::Integer(*i),
        Value::Text(s) => rusqlite::types::Value::Text(s.clone()),
    });
    stmt.query(rusqlite::params_from_iter(bound))
}

/// Relies on rusqlite::Rows::next: yields a handle on the next row of
/// the executed statement, or None once every row has been retrieved.
#[verifier::external_body]
fn rows_next<'a, 'stmt>(
    rows: &'a mut rusqlite::Rows<'stmt>,
) -> Result<Option<&'a rusqlite::Row<'stmt>>, rusqlite::Error> {
    rows.next()
}

/// Relies on rusqlite::Row::get at an i32 column: reads the column at
/// the given index, failing if the index or the stored type mismatches.
#[verifier::external_body]
fn row_get_i32(row: &rusqlite::Row, idx: usize) -> Result<i32, rusqlite::Error> {
    row.get(idx)
}

/// Relies on rusqlite::Row::get at an i64 column: reads the column at
/// the given index, failing if the index or the stored type mismatches.
#[verifier::external_body]
fn row_get_i64(row: &rusqlite::Row, idx: usize) -> Result<i64, rusqlite::Error> {
    row.get(idx)
}

/// Relies on rusqlite::Row::get at a text column: reads the column at
/// the given index, failing if the index or the stored type mismatches.
#[verifier::external_body]
fn row_get_text(row: &rusqlite::Row, idx: usize) -> Result<String, rusqlite::Error> {
    row.get(idx)
}

/// One open connection to the corpus store, exclusively owned for its
/// whole lifetime and passed by reference to query operations.
pub struct DbConnection {
    conn: rusqlite::Connection,
}

impl DbConnection {
    /// Opens the corpus store at its fixed path, read-only. Fails if
    /// the file is missing, unreadable, or not a valid store — an
    /// unrecoverable startup condition, not a per-query error.
    pub fn connect() -> (r: Result<DbConnection, DbError>)
        ensures
            r matches Err(e) ==> e == DbError::Open,
    {
        match open_readonly("resources/gurbani.db") {
            Ok(conn) => Ok(DbConnection { conn }),
            Err(_) => Err(DbError::Open),
        }
    }

    /// Wraps an already-open store connection, so that the executor can
    /// be pointed at any corpus store a caller has opened.
    pub fn from_connection(conn: rusqlite::Connection) -> DbConnection {
        DbConnection { conn }
    }

    /// Invokes the query builder on the filter set, prepares the
    /// resulting statement against the open connection, and hands back
    /// the prepared statement with the arguments it will bind.
    ///
    /// On success the statement text is exactly `sql_of(params)` and the
    /// pending arguments are exactly `args_of(params)`. Preparation can
    /// fail only through a builder defect or a corrupted store.
    pub fn query(&self, params: QueryParams) -> (r: Result<Stmt<'_>, DbError>)
        ensures
            r matches Ok(stmt) ==> {
                &&& stmt.sql() == sql_of(params)
                &&& stmt.args() == args_of(params)
            },
            r matches Err(e) ==> e == DbError::Prepare,
    {
        let (sql, args) = construct_query(params);
        match self.conn.prepare(sql.as_str()) {
            Ok(stmt) => Ok(Stmt { stmt, args, sql: Ghost(sql@) }),
            Err(_) => Err(DbError::Prepare),
        }
    }
}

/// A statement prepared against the open connection, together with the
/// argument list the builder emitted for it, not yet bound.
pub struct Stmt<'conn> {
    stmt: rusqlite::Statement<'conn>,
    args: Vec<Value>,
    sql: Ghost<Seq<char>>,
}

impl<'conn> Stmt<'conn> {
    /// The text this statement was prepared from.
    pub closed spec fn sql(&self) -> Seq<char> {
        self.sql@
    }

    /// The argument list pending to be bound, in builder order.
    pub closed spec fn args(&self) -> Seq<ValueModel> {
        self.args.deep_view()
    }

    /// Binds the pending arguments positionally, in the order the
    /// builder emitted them, and starts one traversal of the matching
    /// rows. A fresh cursor has yielded nothing yet.
    pub fn query(&mut self) -> (r: Result<Cursor<'_>, DbError>)
        ensures
            final(self).sql() == old(self).sql(),
            final(self).args() == old(self).args(),
            r matches Ok(rows) ==> !rows.exhausted(),
            r matches Err(e) ==> e == DbError::Bind,
    {
        match stmt_query(&mut self.stmt, &self.args) {
            Ok(rows) => Ok(Cursor { rows, done: false }),
            Err(_) => Err(DbError::Bind),
        }
    }
}

/// A single-pass, forward-only, lazy cursor over the rows matching one
/// executed query. It buffers nothing beyond the current row and is not
/// restartable: a new query is required for a fresh pass.
pub struct Cursor<'stmt> {
    rows: rusqlite::Rows<'stmt>,
    done: bool,
}

impl<'stmt> Cursor<'stmt> {
    /// Whether the cursor has already signalled end-of-sequence.
    pub closed spec fn exhausted(&self) -> bool {
        self.done
    }

    /// Pulls the next record: `Ok(Some(record))` while rows remain,
    /// `Ok(None)` at end-of-sequence, and an error only on a failed step
    /// or a column mismatch (schema drift), which ends the traversal.
    ///
    /// Pulling past the last row is not an error: once the cursor is
    /// exhausted, every further pull yields end-of-sequence again.
    pub fn next(&mut self) -> (r: Result<Option<Record>, DbError>)
        ensures
            old(self).exhausted() ==> r == Ok::<Option<Record>, DbError>(None),
            old(self).exhausted() ==> final(self).exhausted(),
            !(r matches Ok(Some(_))) ==> final(self).exhausted(),
            r matches Ok(Some(_)) ==> !old(self).exhausted(),
            r matches Err(e) ==> e == DbError::Step || e == DbError::Column,
    {
        if self.done {
            return Ok(None);
        }
        let step = rows_next(&mut self.rows);
        match step {
            Ok(Some(row)) => {
                let handle = RowHandle { row };
                match handle.to_record() {
                    Ok(record) => Ok(Some(record)),
                    Err(e) => {
                        self.done = true;
                        Err(e)
                    },
                }
            },
            Ok(None) => {
                self.done = true;
                Ok(None)
            },
            Err(_) => {
                self.done = true;
                Err(DbError::Step)
            },
        }
    }
}

/// A handle on the current row of a cursor, valid only while the cursor
/// rests on it.
pub struct RowHandle<'stmt> {
    row: &'stmt rusqlite::Row<'stmt>,
}

impl<'stmt> RowHandle<'stmt> {
    /// Maps the row's columns, positionally and in the fixed schema
    /// order, into an immutable verse record. A missing or mistyped
    /// column is a fatal mapping error, not a soft failure.
    pub fn to_record(&self) -> (r: Result<Record, DbError>)
        ensures
            r matches Err(e) ==> e == DbError::Column,
    {
        Ok(
            Record {
                id: self.id()?,
                scripture: self.scripture()?,
                page: self.page()?,
                line: self.line()?,
                hymn: self.hymn()?,
                gurmukhi: self.gurmukhi()?,
                transliteration: self.transliteration()?,
                translation: self.translation()?,
                attributes: self.attributes()?,
                gurmukhi_search: self.gurmukhi_search()?,
                transliteration_search: self.transliteration_search()?,
            },
        )
    }

    /// The unique row identifier, column 0.
    pub fn id(&self) -> (r: Result<i32, DbError>)
        ensures
            r matches Err(e) ==> e == DbError::Column,
    {
        match row_get_i32(self.row, 0) {
            Ok(v) => Ok(v),
            Err(_) => Err(DbError::Column),
        }
    }

    /// The collection string, column 1.
    pub fn scripture(&self) -> (r: Result<String, DbError>)
        ensures
            r matches Err(e) ==> e == DbError::Column,
    {
        match row_get_text(self.row, 1) {
            Ok(v) => Ok(v),
            Err(_) => Err(DbError::Column),
        }
    }

    /// The page locator, column 2.
    pub fn page(&self) -> (r: Result<i64, DbError>)
        ensures
            r matches Err(e) ==> e == DbError::Column,
    {
        match row_get_i64(self.row, 2) {
            Ok(v) => Ok(v),
            Err(_) => Err(DbError::Column),
        }
    }

    /// The line locator, column 3.
    pub fn line(&self) -> (r: Result<i64, DbError>)
        ensures
            r matches Err(e) ==> e == DbError::Column,
    {
        match row_get_i64(self.row, 3) {
            Ok(v) => Ok(v),
            Err(_) => Err(DbError::Column),
        }
    }

    /// The hymn locator, column 4.
    pub fn hymn(&self) -> (r: Result<i64, DbError>)
        ensures
            r matches Err(e) ==> e == DbError::Column,
    {
        match row_get_i64(self.row, 4) {
            Ok(v) => Ok(v),
            Err(_) => Err(DbError::Column),
        }
    }

    /// The original-script display text, column 5.
    pub fn gurmukhi(&self) -> (r: Result<String, DbError>)
        ensures
            r matches Err(e) ==> e == DbError::Column,
    {
        match row_get_text(self.row, 5) {
            Ok(v) => Ok(v),
            Err(_) => Err(DbError::Column),
        }
    }

    /// The transliteration display text, column 6.
    pub fn transliteration(&self) -> (r: Result<String, DbError>)
        ensures
            r matches Err(e) ==> e == DbError::Column,
    {
        match row_get_text(self.row, 6) {
            Ok(v) => Ok(v),
            Err(_) => Err(DbError::Column),
        }
    }

    /// The translation display text, column 7.
    pub fn translation(&self) -> (r: Result<String, DbError>)
        ensures
            r matches Err(e) ==> e == DbError::Column,
    {
        match row_get_text(self.row, 7) {
            Ok(v) => Ok(v),
            Err(_) => Err(DbError::Column),
        }
    }

    /// The opaque serialized metadata, column 8.
    pub fn attributes(&self) -> (r: Result<String, DbError>)
        ensures
            r matches Err(e) ==> e == DbError::Column,
    {
        match row_get_text(self.row, 8) {
            Ok(v) => Ok(v),
            Err(_) => Err(DbError::Column),
        }
    }

    /// The normalized original-script search form, column 9.
    pub fn gurmukhi_search(&self) -> (r: Result<String, DbError>)
        ensures
            r matches Err(e) ==> e == DbError::Column,
    {
        match row_get_text(self.row, 9) {
            Ok(v) => Ok(v),
            Err(_) => Err(DbError::Column),
        }
    }

    /// The normalized transliteration search form, column 10.
    pub fn transliteration_search(&self) -> (r: Result<String, DbError>)
        ensures
            r matches Err(e) ==> e == DbError::Column,
    {
        match row_get_text(self.row, 10) {
            Ok(v) => Ok(v),
            Err(_) => Err(DbError::Column),
        }
    }
}

} // verus!
