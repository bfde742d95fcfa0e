use txcore::Connection;
use txcore::Op;
use txcore::Reply;
use txcore::ResultSet;
use txcore::Statement;
use txcore::Transaction;

fn ack() -> Reply {
    Reply::Success(ResultSet { rows_affected: 0 })
}

fn stmt(text: &str) -> Statement {
    Statement { text: text.to_string(), args: Vec::new() }
}

fn script() -> Vec<Reply> {
    vec![
        ack(),
        Reply::Success(ResultSet { rows_affected: 3 }),
        Reply::Failure("disk I/O error".to_string()),
        ack(),
    ]
}

// The blocking surface and the suspending surface share one state machine:
// driving the step functions (issue, then finish_*) over the same replies
// issues the same operations and classifies every reply the same way the
// blocking calls do.
#[test]
fn blocking_and_step_paths_match() {
    let mut blocking = Connection::new(script());
    let tx = Transaction::new_sync(&mut blocking, 8).unwrap();
    let b_first = tx.execute_sync(&mut blocking, stmt("UPDATE t SET a = 1"));
    let b_second = tx.execute_sync(&mut blocking, stmt("UPDATE t SET b = 2"));
    let b_commit = tx.commit_sync(&mut blocking);

    let mut stepped = Connection::new(script());
    let reply = stepped.issue(Op::Begin(8));
    let s_tx = Transaction::finish_begin(8, reply).unwrap();
    let reply = stepped.issue(Op::Execute(s_tx.id(), stmt("UPDATE t SET a = 1")));
    let s_first = Transaction::finish_execute(reply);
    let reply = stepped.issue(Op::Execute(s_tx.id(), stmt("UPDATE t SET b = 2")));
    let s_second = Transaction::finish_execute(reply);
    let reply = stepped.issue(Op::Commit(s_tx.id()));
    let s_commit = Transaction::finish_commit(reply);

    assert_eq!(blocking.log(), stepped.log());
    assert_eq!(b_first, s_first);
    assert_eq!(b_second, s_second);
    assert_eq!(b_commit, s_commit);
    assert_eq!(b_second.unwrap_err().message, "disk I/O error");
}

#[test]
fn blocking_and_step_paths_match_on_rejected_begin() {
    let mut blocking = Connection::new(vec![Reply::Failure("auth failure".to_string())]);
    let b_res = Transaction::new_sync(&mut blocking, 2);

    let mut stepped = Connection::new(vec![Reply::Failure("auth failure".to_string())]);
    let reply = stepped.issue(Op::Begin(2));
    let s_res = Transaction::finish_begin(2, reply);

    assert_eq!(blocking.log(), stepped.log());
    assert_eq!(b_res.unwrap_err(), s_res.unwrap_err());
}

#[test]
fn blocking_and_step_paths_match_on_rollback_failure() {
    let mut blocking = Connection::new(vec![ack(), Reply::Failure("gone".to_string())]);
    let tx = Transaction::new_sync(&mut blocking, 12).unwrap();
    let b_res = tx.rollback_sync(&mut blocking);

    let mut stepped = Connection::new(vec![ack(), Reply::Failure("gone".to_string())]);
    let reply = stepped.issue(Op::Begin(12));
    let s_tx = Transaction::finish_begin(12, reply).unwrap();
    let reply = stepped.issue(Op::Rollback(s_tx.id()));
    let s_res = Transaction::finish_rollback(reply);

    assert_eq!(blocking.log(), stepped.log());
    assert_eq!(b_res.unwrap_err(), s_res.unwrap_err());
}

#[test]
fn handle_is_bound_to_its_identifier() {
    let mut conn = Connection::new(vec![ack(), ack()]);
    let tx = Transaction::new_sync(&mut conn, 42).unwrap();
    assert_eq!(tx.id(), 42);
    // the identifier is stable for the handle's lifetime
    let _ = tx.execute_sync(&mut conn, stmt("SELECT 1"));
    assert_eq!(tx.id(), 42);
}

#[test]
fn pending_replies_are_consumed_in_order() {
    let mut conn = Connection::new(vec![ack(), ack(), ack()]);
    assert_eq!(conn.pending_len(), 3);
    let tx = Transaction::new_sync(&mut conn, 1).unwrap();
    assert_eq!(conn.pending_len(), 2);
    assert!(tx.commit_sync(&mut conn).is_ok());
    assert_eq!(conn.pending_len(), 1);
}
