//! Coordination between a versioned-table format, a SQL-backed catalog and the
//! table handles of a query engine.
//!
//! The crate holds the decisions of that coordination and proves them:
//!
//! * [`snapshot_cell`]: the atomically updated snapshot id that the write
//!   executions of one table handle share;
//! * [`moderator`]: a per-observer cursor over such a cell;
//! * [`table`]: what the decisions read of a table;
//! * [`catalog`]: the catalog's rows and the guarded update that publishes a
//!   commit;
//! * [`commit`]: the commit-and-publish protocol, one step at a time;
//! * [`commit_model`]: what the protocol guarantees over whole runs;
//! * [`location`]: the version that a metadata location carries;
//! * [`provider`]: the choice between a cached table and a reload;
//! * [`table_format`]: the values of the table format's library, read into plain
//!   values.
//!
//! Catalog queries, metadata writes and reloads are carried out by the caller:
//! the protocol says which to perform next and takes what came of it.

pub mod catalog;
pub mod commit;
pub mod commit_model;
pub mod location;
pub mod moderator;
pub mod provider;
pub mod snapshot_cell;
pub mod table;
pub mod table_format;
