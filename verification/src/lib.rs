//! Search over a fixed corpus of scripture verses.
//!
//! The heart of the crate is a translator from a sparse set of optional
//! filters to a parameterized SQL statement plus its ordered argument
//! list, together with an executor that runs the statement against the
//! corpus store and hands the matching verse records back one at a time.

pub mod builder;
pub mod db;
pub mod laws;
pub mod params;
pub mod text;

pub use builder::construct_query;
pub use db::DbConnection;
pub use db::DbError;
pub use db::Cursor;
pub use db::RowHandle;
pub use db::Stmt;
pub use params::QueryParams;
pub use params::Record;
pub use params::Scripture;
pub use params::Value;
