use txcore::Connection;
use txcore::Op;
use txcore::Reply;
use txcore::ResultSet;
use txcore::Statement;
use txcore::Transaction;

fn ack() -> Reply {
    Reply::Success(ResultSet { rows_affected: 0 })
}

fn stmt(text: &str) -> Statement {
    Statement { text: text.to_string(), args: Vec::new() }
}

#[test]
fn commit_after_failed_execute_still_succeeds() {
    let mut conn = Connection::new(vec![
        ack(),
        Reply::Success(ResultSet { rows_affected: 1 }),
        Reply::Failure("UNIQUE constraint failed: users.name".to_string()),
        ack(),
    ]);
    let tx = Transaction::new_sync(&mut conn, 7).unwrap();
    let first = tx.execute_sync(&mut conn, stmt("INSERT INTO users (name) VALUES ('John')"));
    assert_eq!(first.unwrap().rows_affected, 1);
    let second = tx.execute_sync(&mut conn, stmt("INSERT INTO users (name) VALUES ('Jane')"));
    let err = second.unwrap_err();
    assert_eq!(err.message, "UNIQUE constraint failed: users.name");
    // the failed execute did not terminate the transaction: commit still works
    assert!(tx.commit_sync(&mut conn).is_ok());
    let expected = vec![
        Op::Begin(7),
        Op::Execute(7, stmt("INSERT INTO users (name) VALUES ('John')")),
        Op::Execute(7, stmt("INSERT INTO users (name) VALUES ('Jane')")),
        Op::Commit(7),
    ];
    assert_eq!(conn.log(), &expected);
}

#[test]
fn rollback_after_two_executes() {
    let mut conn = Connection::new(vec![ack(), ack(), ack(), ack()]);
    let tx = Transaction::new_sync(&mut conn, 3).unwrap();
    assert!(tx.execute_sync(&mut conn, stmt("UPDATE t SET a = 1")).is_ok());
    assert!(tx.execute_sync(&mut conn, stmt("UPDATE t SET b = 2")).is_ok());
    assert!(tx.rollback_sync(&mut conn).is_ok());
    let expected = vec![
        Op::Begin(3),
        Op::Execute(3, stmt("UPDATE t SET a = 1")),
        Op::Execute(3, stmt("UPDATE t SET b = 2")),
        Op::Rollback(3),
    ];
    assert_eq!(conn.log(), &expected);
    assert!(conn.log().iter().all(|op| !matches!(op, Op::Commit(_))));
}

#[test]
fn begin_rejected_yields_no_handle() {
    let mut conn = Connection::new(vec![Reply::Failure("too many open transactions".to_string())]);
    let err = Transaction::new_sync(&mut conn, 9).unwrap_err();
    assert_eq!(err.message, "too many open transactions");
    // only the rejected BEGIN was ever issued for the identifier
    assert_eq!(conn.log(), &vec![Op::Begin(9)]);
}

#[test]
fn commit_transport_error_surfaced() {
    let mut conn = Connection::new(vec![
        ack(),
        Reply::Failure("connection reset by peer".to_string()),
    ]);
    let tx = Transaction::new_sync(&mut conn, 4).unwrap();
    let err = tx.commit_sync(&mut conn).unwrap_err();
    assert_eq!(err.message, "connection reset by peer");
    assert_eq!(conn.log(), &vec![Op::Begin(4), Op::Commit(4)]);
}

#[test]
fn rollback_failure_reported() {
    let mut conn = Connection::new(vec![
        ack(),
        Reply::Failure("connection severed".to_string()),
    ]);
    let tx = Transaction::new_sync(&mut conn, 5).unwrap();
    let err = tx.rollback_sync(&mut conn).unwrap_err();
    assert_eq!(err.message, "connection severed");
}

#[test]
fn interleaved_transactions_route_by_identifier() {
    let mut conn = Connection::new(vec![
        ack(),
        ack(),
        ack(),
        ack(),
        ack(),
        ack(),
        ack(),
        ack(),
    ]);
    let t7 = Transaction::new_sync(&mut conn, 7).unwrap();
    let t3 = Transaction::new_sync(&mut conn, 3).unwrap();
    assert!(t7.execute_sync(&mut conn, stmt("INSERT INTO a VALUES (1)")).is_ok());
    assert!(t3.execute_sync(&mut conn, stmt("INSERT INTO b VALUES (2)")).is_ok());
    assert!(t3.execute_sync(&mut conn, stmt("INSERT INTO b VALUES (3)")).is_ok());
    assert!(t7.execute_sync(&mut conn, stmt("INSERT INTO a VALUES (4)")).is_ok());
    assert!(t7.commit_sync(&mut conn).is_ok());
    assert!(t3.rollback_sync(&mut conn).is_ok());
    let expected = vec![
        Op::Begin(7),
        Op::Begin(3),
        Op::Execute(7, stmt("INSERT INTO a VALUES (1)")),
        Op::Execute(3, stmt("INSERT INTO b VALUES (2)")),
        Op::Execute(3, stmt("INSERT INTO b VALUES (3)")),
        Op::Execute(7, stmt("INSERT INTO a VALUES (4)")),
        Op::Commit(7),
        Op::Rollback(3),
    ];
    assert_eq!(conn.log(), &expected);
}

#[test]
fn failed_execute_leaves_transaction_open() {
    let mut conn = Connection::new(vec![
        ack(),
        Reply::Failure("syntax error near SELEKT".to_string()),
        Reply::Success(ResultSet { rows_affected: 2 }),
        ack(),
    ]);
    let tx = Transaction::new_sync(&mut conn, 11).unwrap();
    assert!(tx.execute_sync(&mut conn, stmt("SELEKT 1")).is_err());
    // a subsequent execute on the same handle is still permitted and still
    // carries the same identifier
    let rs = tx.execute_sync(&mut conn, stmt("UPDATE t SET a = 1")).unwrap();
    assert_eq!(rs.rows_affected, 2);
    assert!(tx.commit_sync(&mut conn).is_ok());
    assert!(conn.log().iter().all(|op| match op {
        Op::Begin(id) => *id == 11,
        Op::Execute(id, _) => *id == 11,
        Op::Commit(id) => *id == 11,
        Op::Rollback(id) => *id == 11,
    }));
}

#[test]
fn result_set_returned_unmodified() {
    let mut conn = Connection::new(vec![
        ack(),
        Reply::Success(ResultSet { rows_affected: 5 }),
    ]);
    let tx = Transaction::new_sync(&mut conn, 1).unwrap();
    let rs = tx.execute_sync(&mut conn, stmt("DELETE FROM t")).unwrap();
    assert_eq!(rs, ResultSet { rows_affected: 5 });
}

#[test]
fn exhausted_connection_answers_with_failure() {
    let mut conn = Connection::new(Vec::new());
    let err = Transaction::new_sync(&mut conn, 2).unwrap_err();
    assert_eq!(err.message, "");
    assert_eq!(conn.log(), &vec![Op::Begin(2)]);
}

#[test]
fn statement_payload_forwarded_untouched() {
    let mut conn = Connection::new(vec![ack(), ack(), ack()]);
    let tx = Transaction::new_sync(&mut conn, 6).unwrap();
    let payload = Statement {
        text: "INSERT INTO users (name) VALUES (?)".to_string(),
        args: vec!["John".to_string(), "Jane".to_string()],
    };
    assert!(tx.execute_sync(&mut conn, payload.clone()).is_ok());
    assert!(tx.commit_sync(&mut conn).is_ok());
    match &conn.log()[1] {
        Op::Execute(id, got) => {
            assert_eq!(*id, 6);
            assert_eq!(got, &payload);
        }
        other => panic!("expected an execute, got {:?}", other),
    }
}
