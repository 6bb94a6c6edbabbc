//! End-to-end runs of the client engine over the scripted backend.

use fbclient::scripted::{ScriptedClient, ScriptedConfig};
use fbclient::{Column, Connection, ConnectionConfiguration, Dialect, FbError, Param, Row, SqlValue};

fn config(capacity: usize) -> ConnectionConfiguration<ScriptedConfig> {
    ConnectionConfiguration {
        attachment_conf: ScriptedConfig { fail_attach: false },
        dialect: Dialect::D3,
        stmt_cache_size: capacity,
    }
}

fn open_conn(capacity: usize) -> Connection<ScriptedClient> {
    Connection::open(ScriptedClient::new(), &config(capacity)).expect("attach must succeed")
}

fn int_row(v: i64) -> Row {
    Row { cols: vec![Column { value: SqlValue::Integer(v) }] }
}

fn int_params(v: i64) -> Vec<Param> {
    vec![Param { value: SqlValue::Integer(v) }]
}

#[test]
fn select_minus_three_round_trip() {
    let mut conn = open_conn(20);
    conn.cli.rows.push(int_row(-3));

    let mut it = match conn.query_iter("SELECT -3 FROM RDB$DATABASE WHERE 1 = ?", int_params(1)) {
        Ok(it) => it,
        Err((_, e)) => panic!("query failed: {:?}", e),
    };

    let mut rows = 0;
    while let Some(row) = it.next() {
        let row = row.expect("fetch must succeed");
        assert_eq!(row.cols.len(), 1);
        assert_eq!(row.cols[0].to_i64().expect("integer column"), -3);
        rows += 1;
    }
    assert_eq!(rows, 1);

    let mut conn = it.finish();
    conn.close().expect("close must succeed");
}

#[test]
fn close_twice_detaches_once() {
    let mut conn = open_conn(20);
    conn.close().expect("first close");
    conn.close().expect("second close is a no-op");
    assert_eq!(conn.cli.detaches, 1);
}

#[test]
fn abandoned_stream_returns_statement_and_commits() {
    let conn = open_conn(20);
    let sql = "SELECT 1 FROM RDB$DATABASE";

    let it = match conn.query_iter(sql, Vec::new()) {
        Ok(it) => it,
        Err((_, e)) => panic!("query failed: {:?}", e),
    };
    // abandon after consuming 0 of the pending rows
    let conn = it.finish();
    assert_eq!(conn.cli.prepares, 1);
    assert_eq!(conn.cli.cursor_closes, 1);
    assert_eq!(conn.cli.commit_retainings, 1);

    // the same text hits the cache: no second prepare
    let it = match conn.query_iter(sql, Vec::new()) {
        Ok(it) => it,
        Err((_, e)) => panic!("query failed: {:?}", e),
    };
    let mut conn = it.finish();
    assert_eq!(conn.cli.prepares, 1);
    conn.close().expect("close");
}

#[test]
fn failed_execute_keeps_cache_and_connection_usable() {
    let mut conn = open_conn(20);
    let sql = "UPDATE T SET A = 1";

    conn.execute(sql, Vec::new()).expect("first execute");
    assert_eq!(conn.cli.prepares, 1);
    assert_eq!(conn.cli.commits, 1);

    conn.cli.fail_next_execute = true;
    let err = conn.execute(sql, Vec::new());
    assert!(err.is_err());
    assert_eq!(conn.cli.rollbacks, 1);

    // the statement went back to the cache: the next run needs no prepare
    conn.execute(sql, Vec::new()).expect("third execute");
    assert_eq!(conn.cli.prepares, 1);
    assert_eq!(conn.cli.commits, 2);
    assert_eq!(conn.cli.stmt_drops, 0);
    conn.close().expect("close");
}

#[test]
fn with_transaction_commits_on_success_rolls_back_on_error() {
    let mut conn = open_conn(20);

    let got = conn.with_transaction(|_tr| Ok::<i64, FbError>(7)).expect("must commit");
    assert_eq!(got, 7);
    assert_eq!(conn.cli.commit_retainings, 1);
    assert_eq!(conn.cli.rollback_retainings, 0);

    let failed: Result<i64, FbError> = conn.with_transaction(|_tr| {
        Err(FbError::Conversion { msg: String::new() })
    });
    assert!(failed.is_err());
    assert_eq!(conn.cli.commit_retainings, 1);
    assert_eq!(conn.cli.rollback_retainings, 1);

    // post-closure state is still observable through another statement
    conn.execute("UPDATE T SET A = 1", Vec::new()).expect("later statement");
    conn.close().expect("close");
}

#[test]
fn full_cache_evicts_least_recently_returned() {
    let mut conn = open_conn(2);

    conn.execute("one", Vec::new()).expect("one");
    conn.execute("two", Vec::new()).expect("two");
    assert_eq!(conn.cli.prepares, 2);
    assert_eq!(conn.cli.stmt_drops, 0);

    // a third distinct text beyond capacity evicts the least recently
    // returned statement ("one")
    conn.execute("three", Vec::new()).expect("three");
    assert_eq!(conn.cli.prepares, 3);
    assert_eq!(conn.cli.stmt_drops, 1);

    // "one" was evicted, so it must be prepared again; "three" was not
    conn.execute("one", Vec::new()).expect("one again");
    assert_eq!(conn.cli.prepares, 4);
    conn.execute("three", Vec::new()).expect("three again");
    assert_eq!(conn.cli.prepares, 4);
    conn.close().expect("close");
}

#[test]
fn repeated_round_trips_never_exceed_capacity() {
    let mut conn = open_conn(2);
    for _ in 0..3 {
        conn.execute("a", Vec::new()).expect("a");
        conn.execute("b", Vec::new()).expect("b");
    }
    // two distinct texts, executed over and over: both stay cached
    assert_eq!(conn.cli.prepares, 2);
    conn.close().expect("close");
    // everything that was cached is closed on close(), nothing leaked
    assert_eq!(conn.cli.stmt_drops, 2);
    assert_eq!(conn.cli.detaches, 1);
}

#[test]
fn execute_returnable_yields_the_single_row() {
    let mut conn = open_conn(20);
    conn.cli.rows.push(int_row(5));
    let row = conn
        .execute_returnable("INSERT INTO T (A) VALUES (?) RETURNING A", int_params(5))
        .expect("returning row");
    assert_eq!(row.cols[0].to_i64().expect("integer"), 5);
    assert_eq!(conn.cli.commits, 1);
    conn.close().expect("close");
}

#[test]
fn execute_returnable_without_row_is_a_conversion_error() {
    let mut conn = open_conn(20);
    let r = conn.execute_returnable("INSERT INTO T (A) VALUES (1)", Vec::new());
    match r {
        Err(FbError::Conversion { .. }) => {}
        other => panic!("expected a conversion error, got {:?}", other),
    }
    // the statement still went back to the cache and the work rolled back
    assert_eq!(conn.cli.rollbacks, 1);
    conn.execute("INSERT INTO T (A) VALUES (1)", Vec::new()).expect("reuse");
    assert_eq!(conn.cli.prepares, 1);
    conn.close().expect("close");
}

#[test]
fn failed_prepare_surfaces_backend_error_and_rolls_back() {
    let mut conn = open_conn(20);
    conn.cli.fail_next_prepare = true;
    let r = conn.execute("SELECT 1 FROM RDB$DATABASE", Vec::new());
    match r {
        Err(FbError::Backend { code, .. }) => assert_eq!(code, -1),
        other => panic!("expected a backend error, got {:?}", other),
    }
    assert_eq!(conn.cli.rollbacks, 1);
    // nothing was cached by the failure, and the connection stays usable
    conn.execute("SELECT 1 FROM RDB$DATABASE", Vec::new()).expect("retry");
    assert_eq!(conn.cli.prepares, 2);
    conn.close().expect("close");
}

#[test]
fn failed_attach_reports_backend_error() {
    let conf = ConnectionConfiguration {
        attachment_conf: ScriptedConfig { fail_attach: true },
        dialect: Dialect::D3,
        stmt_cache_size: 20,
    };
    match Connection::open(ScriptedClient::new(), &conf) {
        Err(FbError::Backend { code, .. }) => assert_eq!(code, -1),
        other => panic!("expected a backend error, got {:?}", other.map(|_| ())),
    }
}

#[test]
fn fetch_error_mid_stream_still_tears_down() {
    let mut conn = open_conn(20);
    conn.cli.rows.push(int_row(1));
    conn.cli.rows.push(int_row(2));

    let mut it = match conn.query_iter("SELECT A FROM T", Vec::new()) {
        Ok(it) => it,
        Err((_, e)) => panic!("query failed: {:?}", e),
    };
    let first = it.next().expect("a row").expect("fetch ok");
    assert_eq!(first.cols[0].to_i64().expect("integer"), 1);

    it.conn.cli.fail_next_fetch = true;
    let second = it.next().expect("an answer");
    assert!(second.is_err());

    let conn = it.finish();
    assert_eq!(conn.cli.cursor_closes, 1);
    assert_eq!(conn.cli.commit_retainings, 1);

    // the statement is back in the cache
    let it = match conn.query_iter("SELECT A FROM T", Vec::new()) {
        Ok(it) => it,
        Err((_, e)) => panic!("query failed: {:?}", e),
    };
    let mut conn = it.finish();
    assert_eq!(conn.cli.prepares, 1);
    conn.close().expect("close");
}

#[test]
fn drop_database_bypasses_detach() {
    let mut conn = open_conn(20);
    conn.drop_database().expect("drop");
    assert_eq!(conn.cli.detaches, 0);
}

#[test]
fn execute_immediate_runs_under_the_given_transaction() {
    let mut conn = open_conn(20);
    let tr = conn
        .begin_transaction(fbclient::TrIsolationLevel::ReadCommitted)
        .expect("begin");
    tr.execute_immediate(&mut conn, "CREATE TABLE T (A INT)").expect("ddl");
    tr.commit(&mut conn).expect("commit");
    assert_eq!(conn.cli.begins, 1);
    assert_eq!(conn.cli.commits, 1);
    conn.close().expect("close");
}

#[test]
fn default_configuration_uses_dialect_three_and_twenty_slots() {
    let conf: ConnectionConfiguration<ScriptedConfig> = Default::default();
    assert_eq!(conf.dialect, Dialect::D3);
    assert_eq!(conf.stmt_cache_size, 20);
    assert!(!conf.attachment_conf.fail_attach);
}

#[test]
fn column_conversion_rejects_non_integers() {
    let c = Column { value: SqlValue::Text(String::from("x")) };
    match c.to_i64() {
        Err(FbError::Conversion { .. }) => {}
        other => panic!("expected a conversion error, got {:?}", other),
    }
    let n = Column { value: SqlValue::Null };
    assert!(n.to_i64().is_err());
    let i = Column { value: SqlValue::Integer(41) };
    assert_eq!(i.to_i64().expect("integer"), 41);
}
