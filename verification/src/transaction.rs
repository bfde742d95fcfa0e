//! The transaction handle: an interactive transaction's state machine and
//! its ownership discipline.
//!
//! A live [`Transaction`] value denotes an open transaction; `commit` and
//! `rollback` consume the handle by value, so once a terminal operation has
//! been issued no value remains to operate on — use-after-terminate and
//! double-terminate are impossible by construction, not by a runtime flag.
//!
//! The state machine is written once, as the `finish_*` decision functions
//! that classify a collaborator reply; the blocking operations are thin
//! adapters that issue the operation on a [`Connection`] and then apply the
//! same decision. A suspending adapter applies the very same functions
//! around its own awaited calls, so both execution contracts classify every
//! reply identically.

use vstd::prelude::*;

use crate::connection::Connection;
use crate::connection::next_reply;
use crate::connection::pending_after;
use crate::errors::CommitError;
use crate::errors::RollbackError;
use crate::errors::StatementExecutionError;
use crate::errors::TransactionStartError;
use crate::protocol::Op;
use crate::protocol::OpView;
use crate::protocol::Reply;
use crate::protocol::ReplyView;
use crate::protocol::ResultSet;
use crate::protocol::Statement;
use crate::protocol::count_terminals;
use crate::protocol::fresh_id;
use crate::protocol::tx_committed;
use crate::protocol::tx_open;
use crate::protocol::tx_rolled_back;

verus! {

/// A handle to one open transaction, bound to one transaction identifier.
/// It cannot be cloned; commit and rollback take it by value.
#[derive(Debug)]
pub struct Transaction {
    id: u64,
}

/// How a BEGIN reply is classified, shared by the blocking and suspending
/// contracts: a success yields a handle bound to `id`, a failure yields a
/// `TransactionStartError` carrying the collaborator's message verbatim —
/// if and only if.
pub open spec fn begin_post(
    id: u64,
    reply: ReplyView,
    r: Result<Transaction, TransactionStartError>,
) -> bool {
    match reply {
        ReplyView::Success(_) => r matches Ok(t) && t.id_spec() == id,
        ReplyView::Failure(m) => r matches Err(e) && e.message@ == m,
    }
}

/// How an execute reply is classified: a success hands the collaborator's
/// result set back unmodified, a failure yields a `StatementExecutionError`
/// carrying the collaborator's message — if and only if.
pub open spec fn execute_post(
    reply: ReplyView,
    r: Result<ResultSet, StatementExecutionError>,
) -> bool {
    match reply {
        ReplyView::Success(rs) => r matches Ok(got) && got == rs,
        ReplyView::Failure(m) => r matches Err(e) && e.message@ == m,
    }
}

/// How a COMMIT reply is classified: success if and only if the collaborator
/// succeeded, else a `CommitError` carrying its message.
pub open spec fn commit_post(reply: ReplyView, r: Result<(), CommitError>) -> bool {
    match reply {
        ReplyView::Success(_) => r is Ok,
        ReplyView::Failure(m) => r matches Err(e) && e.message@ == m,
    }
}

/// How a ROLLBACK reply is classified: success if and only if the
/// collaborator succeeded, else a `RollbackError` carrying its message — a
/// rollback failure is never downgraded to success.
pub open spec fn rollback_post(reply: ReplyView, r: Result<(), RollbackError>) -> bool {
    match reply {
        ReplyView::Success(_) => r is Ok,
        ReplyView::Failure(m) => r matches Err(e) && e.message@ == m,
    }
}

impl Transaction {
    /// The identifier this handle is bound to.
    pub closed spec fn id_spec(&self) -> u64 {
        self.id
    }

    /// The identifier this handle is bound to, stable for its lifetime.
    pub fn id(&self) -> (r: u64)
        ensures
            r == self.id_spec(),
    {
        self.id
    }

    /// The shared decision for construction: a handle materializes exactly
    /// when the collaborator acknowledged the BEGIN. A suspending adapter
    /// calls this on the reply it awaited.
    pub fn finish_begin(id: u64, reply: Reply) -> (r: Result<Transaction, TransactionStartError>)
        ensures
            begin_post(id, reply@, r),
    {
        match reply {
            Reply::Success(_) => Ok(Transaction { id }),
            Reply::Failure(message) => Err(TransactionStartError { message }),
        }
    }

    /// The shared decision for execute: the result set is returned
    /// unmodified, a failure is surfaced as a `StatementExecutionError`.
    pub fn finish_execute(reply: Reply) -> (r: Result<ResultSet, StatementExecutionError>)
        ensures
            execute_post(reply@, r),
    {
        match reply {
            Reply::Success(rs) => Ok(rs),
            Reply::Failure(message) => Err(StatementExecutionError { message }),
        }
    }

    /// The shared decision for commit.
    pub fn finish_commit(reply: Reply) -> (r: Result<(), CommitError>)
        ensures
            commit_post(reply@, r),
    {
        match reply {
            Reply::Success(_) => Ok(()),
            Reply::Failure(message) => Err(CommitError { message }),
        }
    }

    /// The shared decision for rollback. A failure is reported, never
    /// swallowed.
    pub fn finish_rollback(reply: Reply) -> (r: Result<(), RollbackError>)
        ensures
            rollback_post(reply@, r),
            reply@ is Failure ==> r is Err,
    {
        match reply {
            Reply::Success(_) => Ok(()),
            Reply::Failure(message) => Err(RollbackError { message }),
        }
    }

    /// Opens a transaction, blocking: issues a BEGIN for `id` and yields a
    /// live handle only if the collaborator acknowledged it. On failure no
    /// handle is observable, and the only operation the connection saw for
    /// `id` is the BEGIN itself.
    pub fn new_sync(conn: &mut Connection, id: u64) -> (r: Result<
        Transaction,
        TransactionStartError,
    >)
        requires
            fresh_id(old(conn)@.log, id),
        ensures
            final(conn)@.log == old(conn)@.log.push(OpView::Begin(id)),
            final(conn)@.pending == pending_after(old(conn)@.pending),
            begin_post(id, next_reply(old(conn)@.pending), r),
            r is Ok ==> tx_open(final(conn)@.log, id),
    {
        let ghost pre = conn@.log;
        let reply = conn.issue(Op::Begin(id));
        proof {
            crate::protocol::lemma_fresh_counts(pre, id);
            crate::protocol::lemma_counts_push(pre, id, OpView::Begin(id));
            let pushed = pre.push(OpView::Begin(id));
            assert forall|i: int|
                0 <= i < pushed.len() && (#[trigger] pushed[i]).tx_id() == id && !(pushed[i]
                    is Begin) implies exists|k: int| 0 <= k < i && pushed[k] == OpView::Begin(
                id,
            ) by {
                assert(pushed[i] == pre[i]);
                assert(pre[i].tx_id() != id);
            }
        }
        Transaction::finish_begin(id, reply)
    }

    /// Executes a statement within the transaction, blocking: the statement
    /// is forwarded tagged with this handle's identifier, and the
    /// collaborator's result set is returned unmodified. A failure is
    /// surfaced to the caller and nothing else happens: the transaction
    /// stays open, the identifier is unchanged, and the caller decides
    /// whether to retry, continue, or roll back.
    pub fn execute_sync(&self, conn: &mut Connection, stmt: Statement) -> (r: Result<
        ResultSet,
        StatementExecutionError,
    >)
        requires
            tx_open(old(conn)@.log, self.id_spec()),
        ensures
            final(conn)@.log == old(conn)@.log.push(OpView::Execute(self.id_spec(), stmt@)),
            final(conn)@.pending == pending_after(old(conn)@.pending),
            execute_post(next_reply(old(conn)@.pending), r),
            tx_open(final(conn)@.log, self.id_spec()),
    {
        let ghost pre = conn@.log;
        let ghost stmt_view = stmt@;
        let reply = conn.issue(Op::Execute(self.id, stmt));
        proof {
            crate::protocol::lemma_execute_preserves_open(pre, self.id, stmt_view);
        }
        Transaction::finish_execute(reply)
    }

    /// Commits the transaction, blocking, consuming the handle: a COMMIT is
    /// issued for this handle's identifier, which is then terminated for
    /// good — exactly one terminal operation stands in the log, and it is a
    /// commit, not a rollback. A commit failure is surfaced as a
    /// `CommitError`; the handle is gone either way and the server-side
    /// state is the collaborator's to report.
    pub fn commit_sync(self, conn: &mut Connection) -> (r: Result<(), CommitError>)
        requires
            tx_open(old(conn)@.log, self.id_spec()),
        ensures
            final(conn)@.log == old(conn)@.log.push(OpView::Commit(self.id_spec())),
            final(conn)@.pending == pending_after(old(conn)@.pending),
            commit_post(next_reply(old(conn)@.pending), r),
            count_terminals(final(conn)@.log, self.id_spec()) == 1,
            tx_committed(final(conn)@.log, self.id_spec()),
            !tx_open(final(conn)@.log, self.id_spec()),
    {
        let ghost pre = conn@.log;
        let reply = conn.issue(Op::Commit(self.id));
        proof {
            crate::protocol::lemma_terminal_closes(pre, self.id, OpView::Commit(self.id));
        }
        Transaction::finish_commit(reply)
    }

    /// Rolls back the transaction, blocking, consuming the handle: a
    /// ROLLBACK is issued for this handle's identifier, which is then
    /// terminated for good — exactly one terminal operation stands in the
    /// log, and it is a rollback, not a commit. A rollback failure is
    /// surfaced as a `RollbackError`, never downgraded to success.
    pub fn rollback_sync(self, conn: &mut Connection) -> (r: Result<(), RollbackError>)
        requires
            tx_open(old(conn)@.log, self.id_spec()),
        ensures
            final(conn)@.log == old(conn)@.log.push(OpView::Rollback(self.id_spec())),
            final(conn)@.pending == pending_after(old(conn)@.pending),
            rollback_post(next_reply(old(conn)@.pending), r),
            next_reply(old(conn)@.pending) is Failure ==> r is Err,
            count_terminals(final(conn)@.log, self.id_spec()) == 1,
            tx_rolled_back(final(conn)@.log, self.id_spec()),
            !tx_open(final(conn)@.log, self.id_spec()),
    {
        let ghost pre = conn@.log;
        let reply = conn.issue(Op::Rollback(self.id));
        proof {
            crate::protocol::lemma_terminal_closes(pre, self.id, OpView::Rollback(self.id));
        }
        Transaction::finish_rollback(reply)
    }
}

/// The shared BEGIN classification is deterministic: any two results that
/// satisfy it for the same reply agree on success, on the handle's
/// identifier, and on the error message. Since the blocking and the
/// suspending contract both ensure `begin_post` of the reply they drew, the
/// two contracts classify every reply identically.
pub proof fn lemma_begin_classification_agrees(
    id: u64,
    reply: ReplyView,
    r1: Result<Transaction, TransactionStartError>,
    r2: Result<Transaction, TransactionStartError>,
)
    requires
        begin_post(id, reply, r1),
        begin_post(id, reply, r2),
    ensures
        r1 is Ok <==> r2 is Ok,
        r1 is Ok ==> r1->Ok_0.id_spec() == r2->Ok_0.id_spec(),
        r1 is Err ==> r1->Err_0.message@ == r2->Err_0.message@,
{
}

/// The shared execute classification is deterministic: for the same reply,
/// any two results satisfying it agree on success, on the result set, and on
/// the error message — so the blocking and the suspending contract agree.
pub proof fn lemma_execute_classification_agrees(
    reply: ReplyView,
    r1: Result<ResultSet, StatementExecutionError>,
    r2: Result<ResultSet, StatementExecutionError>,
)
    requires
        execute_post(reply, r1),
        execute_post(reply, r2),
    ensures
        r1 is Ok <==> r2 is Ok,
        r1 is Ok ==> r1->Ok_0 == r2->Ok_0,
        r1 is Err ==> r1->Err_0.message@ == r2->Err_0.message@,
{
}

/// The shared commit classification is deterministic: for the same reply,
/// any two results satisfying it agree on success and on the error message.
pub proof fn lemma_commit_classification_agrees(
    reply: ReplyView,
    r1: Result<(), CommitError>,
    r2: Result<(), CommitError>,
)
    requires
        commit_post(reply, r1),
        commit_post(reply, r2),
    ensures
        r1 is Ok <==> r2 is Ok,
        r1 is Err ==> r1->Err_0.message@ == r2->Err_0.message@,
{
}

/// The shared rollback classification is deterministic: for the same reply,
/// any two results satisfying it agree on success and on the error message —
/// and a failure reply forces an error result in both contracts.
pub proof fn lemma_rollback_classification_agrees(
    reply: ReplyView,
    r1: Result<(), RollbackError>,
    r2: Result<(), RollbackError>,
)
    requires
        rollback_post(reply, r1),
        rollback_post(reply, r2),
    ensures
        r1 is Ok <==> r2 is Ok,
        r1 is Err ==> r1->Err_0.message@ == r2->Err_0.message@,
        reply is Failure ==> r1 is Err && r2 is Err,
{
}

} // verus!
