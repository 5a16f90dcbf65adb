//! A small convenience layer over an embedded SQL database: it maps result
//! rows to typed records and builds simple `SELECT` statements.

pub mod columns;
pub mod driver;
pub mod error;
pub mod query;
pub mod rows;
pub mod text;

pub use driver::RecordRows;
pub use error::SealionError;
pub use error::SealionResult;
pub use query::SelectQuery;
pub use rows::Record;
pub use rows::from_statement;
