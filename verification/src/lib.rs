//! Transaction-lifecycle layer of a SQL database client.
//!
//! A [`Transaction`] handle turns a sequence of statement executions into an
//! atomic unit bounded by explicit BEGIN/COMMIT/ROLLBACK control. The handle
//! itself never inspects statement text or result contents; it only
//! orchestrates the begin/execute/terminate sequence against a connection
//! collaborator, and the ownership discipline of the handle (consumed exactly
//! once, by either commit or rollback) is what enforces transactional
//! correctness: no use after termination, no double termination, no statement
//! execution outside an open transaction.

use vstd::prelude::*;

pub mod connection;
pub mod errors;
pub mod protocol;
pub mod transaction;

pub use connection::Connection;
pub use connection::ConnectionView;
pub use errors::CommitError;
pub use errors::RollbackError;
pub use errors::StatementExecutionError;
pub use errors::TransactionStartError;
pub use protocol::Op;
pub use protocol::OpView;
pub use protocol::Reply;
pub use protocol::ReplyView;
pub use protocol::ResultSet;
pub use protocol::Statement;
pub use protocol::StatementView;
pub use transaction::Transaction;

verus! {

} // verus!
