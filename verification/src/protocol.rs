//! The wire-level protocol between a transaction handle and its connection
//! collaborator: the operations a handle issues, the replies a collaborator
//! returns, and the specification-level predicates over operation logs that
//! the transaction discipline is stated with.

use vstd::prelude::*;

verus! {

/// An opaque statement payload: text plus positional parameters. The
/// transaction layer never interprets it; it is forwarded to the connection
/// unchanged, tagged with the issuing transaction's identifier.
#[derive(Debug, Clone, PartialEq, Eq)]
pub struct Statement {
    pub text: String,
    pub args: Vec<String>,
}

/// The mathematical value of a [`Statement`].
pub struct StatementView {
    pub text: Seq<char>,
    pub args: Seq<Seq<char>>,
}

impl View for Statement {
    type V = StatementView;

    open spec fn view(&self) -> StatementView {
        StatementView { text: self.text@, args: self.args@.map_values(|a: String| a@) }
    }
}

/// An opaque result set, produced by the connection and handed back to the
/// caller unmodified.
#[derive(Debug, Clone, Copy, PartialEq, Eq)]
pub struct ResultSet {
    pub rows_affected: u64,
}

/// One operation issued to the connection collaborator, tagged with the
/// transaction identifier that routes it to the correct in-flight
/// transaction.
#[derive(Debug, Clone, PartialEq, Eq)]
pub enum Op {
    Begin(u64),
    Execute(u64, Statement),
    Commit(u64),
    Rollback(u64),
}

/// The mathematical value of an [`Op`].
pub enum OpView {
    Begin(u64),
    Execute(u64, StatementView),
    Commit(u64),
    Rollback(u64),
}

impl View for Op {
    type V = OpView;

    open spec fn view(&self) -> OpView {
        match self {
            Op::Begin(id) => OpView::Begin(*id),
            Op::Execute(id, stmt) => OpView::Execute(*id, stmt@),
            Op::Commit(id) => OpView::Commit(*id),
            Op::Rollback(id) => OpView::Rollback(*id),
        }
    }
}

impl OpView {
    /// The transaction identifier an operation carries.
    pub open spec fn tx_id(self) -> u64 {
        match self {
            OpView::Begin(id) => id,
            OpView::Execute(id, _) => id,
            OpView::Commit(id) => id,
            OpView::Rollback(id) => id,
        }
    }
}

/// One reply from the connection collaborator: either a result set (ignored
/// for control operations) or a failure message.
#[derive(Debug, Clone, PartialEq, Eq)]
pub enum Reply {
    Success(ResultSet),
    Failure(String),
}

/// The mathematical value of a [`Reply`].
pub enum ReplyView {
    Success(ResultSet),
    Failure(Seq<char>),
}

impl View for Reply {
    type V = ReplyView;

    open spec fn view(&self) -> ReplyView {
        match self {
            Reply::Success(rs) => ReplyView::Success(*rs),
            Reply::Failure(m) => ReplyView::Failure(m@),
        }
    }
}

/// How many `Begin` operations for `id` a log holds.
pub open spec fn count_begins(log: Seq<OpView>, id: u64) -> nat
    decreases log.len(),
{
    if log.len() == 0 {
        0
    } else {
        count_begins(log.drop_last(), id) + if log.last() == OpView::Begin(id) {
            1nat
        } else {
            0nat
        }
    }
}

/// How many `Commit` operations for `id` a log holds.
pub open spec fn count_commits(log: Seq<OpView>, id: u64) -> nat
    decreases log.len(),
{
    if log.len() == 0 {
        0
    } else {
        count_commits(log.drop_last(), id) + if log.last() == OpView::Commit(id) {
            1nat
        } else {
            0nat
        }
    }
}

/// How many `Rollback` operations for `id` a log holds.
pub open spec fn count_rollbacks(log: Seq<OpView>, id: u64) -> nat
    decreases log.len(),
{
    if log.len() == 0 {
        0
    } else {
        count_rollbacks(log.drop_last(), id) + if log.last() == OpView::Rollback(id) {
            1nat
        } else {
            0nat
        }
    }
}

/// How many terminal operations (commit or rollback) for `id` a log holds.
pub open spec fn count_terminals(log: Seq<OpView>, id: u64) -> nat {
    count_commits(log, id) + count_rollbacks(log, id)
}

/// No operation in the log carries `id`: the identifier is fresh, as the
/// collaborator guarantees of an identifier it has just allocated.
pub open spec fn fresh_id(log: Seq<OpView>, id: u64) -> bool {
    forall|i: int| 0 <= i < log.len() ==> (#[trigger] log[i]).tx_id() != id
}

/// Every non-`Begin` operation for `id` is preceded by a `Begin` for `id`.
pub open spec fn begin_precedes(log: Seq<OpView>, id: u64) -> bool {
    forall|i: int|
        0 <= i < log.len() && (#[trigger] log[i]).tx_id() == id && !(log[i] is Begin) ==> exists|
            k: int,
        |
            0 <= k < i && log[k] == OpView::Begin(id)
}

/// The log shows transaction `id` as open: exactly one BEGIN was issued for
/// it, no terminal operation was, and the BEGIN came before every other
/// operation carrying the identifier.
pub open spec fn tx_open(log: Seq<OpView>, id: u64) -> bool {
    &&& count_begins(log, id) == 1
    &&& count_terminals(log, id) == 0
    &&& begin_precedes(log, id)
}

/// Transaction `id` was terminated through COMMIT: the log holds one BEGIN
/// and one COMMIT for it, no ROLLBACK, and the BEGIN stands before
/// everything else carrying the identifier. Whether the commit succeeded is
/// the reply's to say; the log records what was issued.
pub open spec fn tx_committed(log: Seq<OpView>, id: u64) -> bool {
    &&& count_begins(log, id) == 1
    &&& count_commits(log, id) == 1
    &&& count_rollbacks(log, id) == 0
    &&& begin_precedes(log, id)
}

/// Transaction `id` was terminated through ROLLBACK: the log holds one
/// BEGIN and one ROLLBACK for it, no COMMIT, and the BEGIN stands before
/// everything else carrying the identifier.
pub open spec fn tx_rolled_back(log: Seq<OpView>, id: u64) -> bool {
    &&& count_begins(log, id) == 1
    &&& count_rollbacks(log, id) == 1
    &&& count_commits(log, id) == 0
    &&& begin_precedes(log, id)
}

/// Appending one operation changes each count by that operation's own
/// contribution and nothing else.
pub proof fn lemma_counts_push(log: Seq<OpView>, id: u64, op: OpView)
    ensures
        count_begins(log.push(op), id) == count_begins(log, id) + if op == OpView::Begin(id) {
            1nat
        } else {
            0nat
        },
        count_commits(log.push(op), id) == count_commits(log, id) + if op == OpView::Commit(id) {
            1nat
        } else {
            0nat
        },
        count_rollbacks(log.push(op), id) == count_rollbacks(log, id) + if op == OpView::Rollback(
            id,
        ) {
            1nat
        } else {
            0nat
        },
{
    assert(log.push(op).drop_last() =~= log);
    assert(log.push(op).last() == op);
}

/// A log in which no operation carries `id` counts nothing for `id`.
pub proof fn lemma_fresh_counts(log: Seq<OpView>, id: u64)
    requires
        fresh_id(log, id),
    ensures
        count_begins(log, id) == 0,
        count_commits(log, id) == 0,
        count_rollbacks(log, id) == 0,
    decreases log.len(),
{
    if log.len() > 0 {
        assert(forall|i: int|
            0 <= i < log.drop_last().len() ==> (#[trigger] log.drop_last()[i]).tx_id() != id);
        lemma_fresh_counts(log.drop_last(), id);
        assert(log.last() == log[log.len() - 1]);
        assert(log.last().tx_id() != id);
    }
}

/// A positive BEGIN count exhibits a BEGIN in the log.
pub proof fn lemma_count_begins_pos(log: Seq<OpView>, id: u64)
    requires
        count_begins(log, id) > 0,
    ensures
        exists|k: int| 0 <= k < log.len() && log[k] == OpView::Begin(id),
    decreases log.len(),
{
    if log.last() == OpView::Begin(id) {
        assert(log[log.len() - 1] == OpView::Begin(id));
    } else {
        lemma_count_begins_pos(log.drop_last(), id);
        let k = choose|k: int|
            0 <= k < log.drop_last().len() && log.drop_last()[k] == OpView::Begin(id);
        assert(log[k] == OpView::Begin(id));
    }
}

/// A BEGIN standing in the log makes the BEGIN count positive.
proof fn lemma_begin_at_index_counts(log: Seq<OpView>, id: u64, k: int)
    requires
        0 <= k < log.len(),
        log[k] == OpView::Begin(id),
    ensures
        count_begins(log, id) >= 1,
    decreases log.len(),
{
    if k == log.len() - 1 {
    } else {
        assert(log.drop_last()[k] == log[k]);
        lemma_begin_at_index_counts(log.drop_last(), id, k);
    }
}

/// Two distinct BEGINs in the log make the BEGIN count at least two.
proof fn lemma_two_begins_count(log: Seq<OpView>, id: u64, k1: int, k2: int)
    requires
        0 <= k1 < k2 < log.len(),
        log[k1] == OpView::Begin(id),
        log[k2] == OpView::Begin(id),
    ensures
        count_begins(log, id) >= 2,
    decreases log.len(),
{
    if k2 == log.len() - 1 {
        assert(log.drop_last()[k1] == log[k1]);
        lemma_begin_at_index_counts(log.drop_last(), id, k1);
    } else {
        assert(log.drop_last()[k1] == log[k1]);
        assert(log.drop_last()[k2] == log[k2]);
        lemma_two_begins_count(log.drop_last(), id, k1, k2);
    }
}

/// An open transaction had its BEGIN issued exactly once, and that BEGIN
/// stands before every other operation carrying the identifier: the log shows
/// one BEGIN, at a unique position, preceding all executes and terminals for
/// `id`.
pub proof fn lemma_begin_issued_once_and_first(log: Seq<OpView>, id: u64)
    requires
        tx_open(log, id),
    ensures
        exists|k: int| 0 <= k < log.len() && log[k] == OpView::Begin(id),
        forall|k1: int, k2: int|
            0 <= k1 < log.len() && 0 <= k2 < log.len() && log[k1] == OpView::Begin(id) && log[k2]
                == (OpView::Begin(id)) ==> k1 == k2,
        forall|i: int|
            0 <= i < log.len() && (#[trigger] log[i]).tx_id() == id && !(log[i] is Begin)
                ==> exists|k: int| 0 <= k < i && log[k] == OpView::Begin(id),
{
    lemma_count_begins_pos(log, id);
    assert forall|k1: int, k2: int|
        0 <= k1 < log.len() && 0 <= k2 < log.len() && log[k1] == OpView::Begin(id) && log[k2] == (
        OpView::Begin(id)) implies k1 == k2 by {
        if k1 < k2 {
            lemma_two_begins_count(log, id, k1, k2);
        } else if k2 < k1 {
            lemma_two_begins_count(log, id, k2, k1);
        }
    }
}

/// Forwarding a statement keeps the transaction open: the appended execute
/// operation neither adds a BEGIN nor a terminal, and the original BEGIN
/// still precedes everything. This is why a failed execute changes nothing
/// about the transaction's state.
pub proof fn lemma_execute_preserves_open(log: Seq<OpView>, id: u64, stmt: StatementView)
    requires
        tx_open(log, id),
    ensures
        tx_open(log.push(OpView::Execute(id, stmt)), id),
{
    let pushed = log.push(OpView::Execute(id, stmt));
    lemma_counts_push(log, id, OpView::Execute(id, stmt));
    lemma_count_begins_pos(log, id);
    assert forall|i: int|
        0 <= i < pushed.len() && (#[trigger] pushed[i]).tx_id() == id && !(pushed[i]
            is Begin) implies exists|k: int| 0 <= k < i && pushed[k] == OpView::Begin(id) by {
        if i < log.len() {
            assert(pushed[i] == log[i]);
            let k = choose|k: int| 0 <= k < i && log[k] == OpView::Begin(id);
            assert(pushed[k] == OpView::Begin(id));
        } else {
            let k = choose|k: int| 0 <= k < log.len() && log[k] == OpView::Begin(id);
            assert(pushed[k] == OpView::Begin(id));
        }
    }
}

/// A terminal operation closes the transaction for good: the log then holds
/// exactly one terminal for `id` — a commit or a rollback, never both — and
/// the transaction is no longer open, so no further operation can be issued
/// for it through a handle.
pub proof fn lemma_terminal_closes(log: Seq<OpView>, id: u64, term: OpView)
    requires
        tx_open(log, id),
        term == OpView::Commit(id) || term == OpView::Rollback(id),
    ensures
        count_terminals(log.push(term), id) == 1,
        term is Commit ==> tx_committed(log.push(term), id),
        term is Rollback ==> tx_rolled_back(log.push(term), id),
        !tx_open(log.push(term), id),
{
    let pushed = log.push(term);
    lemma_counts_push(log, id, term);
    lemma_count_begins_pos(log, id);
    assert forall|i: int|
        0 <= i < pushed.len() && (#[trigger] pushed[i]).tx_id() == id && !(pushed[i]
            is Begin) implies exists|k: int| 0 <= k < i && pushed[k] == OpView::Begin(id) by {
        if i < log.len() {
            assert(pushed[i] == log[i]);
            let k = choose|k: int| 0 <= k < i && log[k] == OpView::Begin(id);
            assert(pushed[k] == OpView::Begin(id));
        } else {
            let k = choose|k: int| 0 <= k < log.len() && log[k] == OpView::Begin(id);
            assert(pushed[k] == OpView::Begin(id));
        }
    }
}

/// Commit and rollback are mutually exclusive: no log shows one transaction
/// both committed and rolled back.
pub proof fn lemma_terminal_states_exclusive(log: Seq<OpView>, id: u64)
    ensures
        !(tx_committed(log, id) && tx_rolled_back(log, id)),
{
}

/// Operations carrying another identifier never affect a transaction's
/// state: two handles on distinct identifiers route independently over the
/// same connection.
pub proof fn lemma_other_transaction_untouched(log: Seq<OpView>, id: u64, op: OpView)
    requires
        tx_open(log, id),
        op.tx_id() != id,
    ensures
        tx_open(log.push(op), id),
{
    let pushed = log.push(op);
    lemma_counts_push(log, id, op);
    assert forall|i: int|
        0 <= i < pushed.len() && (#[trigger] pushed[i]).tx_id() == id && !(pushed[i]
            is Begin) implies exists|k: int| 0 <= k < i && pushed[k] == OpView::Begin(id) by {
        assert(i < log.len());
        assert(pushed[i] == log[i]);
        let k = choose|k: int| 0 <= k < i && log[k] == OpView::Begin(id);
        assert(pushed[k] == OpView::Begin(id));
    }
}

} // verus!
