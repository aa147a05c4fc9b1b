use query_noir::cache::{
    get_query_metadata, invalidate_query, metadata_path, paginate, query_results,
    QueryResultParams,
};
use query_noir::config::Dialect;
use query_noir::error::Error;
use query_noir::limit::{apply_auto_limit, has_limit};
use query_noir::result::{finish_task, ResultSet, TableMetadata, TaskOutcome};
use query_noir::task::{
    batch_from_parse, decimal_string, enqueue_query, execute_query, first_statement,
    get_query_type, plan_batch, task_id, ParsedStatement, QueryTask, QueryTaskStatus, QueryType,
};
use query_noir::tx::{execute_tx, tx_step, TxEvent, TxState, TxStep};

fn submit(sql: &str, auto_limit: bool) -> query_noir::task::Batch {
    match enqueue_query("c1".to_string(), Dialect::Postgresql, 0, sql, auto_limit, None) {
        Ok(batch) => batch,
        Err(e) => panic!("rejected: {:?}", e),
    }
}

#[test]
fn auto_limit_is_appended_to_unbounded_select() {
    let batch = submit("SELECT * FROM t", true);
    assert_eq!(batch.tasks.len(), 1);
    assert_eq!(batch.tasks[0].query, "SELECT * FROM t LIMIT 1000");
    assert!(batch.tasks[0].query.ends_with("LIMIT 1000"));
    assert_eq!(batch.tasks[0].t, QueryType::Select);
}

#[test]
fn auto_limit_leaves_bounded_select_unchanged() {
    let batch = submit("SELECT * FROM t LIMIT 5", true);
    assert_eq!(batch.tasks[0].query, "SELECT * FROM t LIMIT 5");
}

#[test]
fn auto_limit_off_leaves_select_unchanged() {
    let batch = submit("SELECT * FROM t", false);
    assert_eq!(batch.tasks[0].query, "SELECT * FROM t");
}

#[test]
fn auto_limit_skips_other_statements() {
    let batch = submit("INSERT INTO t VALUES (1)", true);
    assert_eq!(batch.tasks[0].t, QueryType::Other);
    assert_eq!(batch.tasks[0].query, "INSERT INTO t VALUES (1)");
}

#[test]
fn auto_limit_misfires_on_identifiers() {
    let batch = submit("SELECT rate_limit FROM t", true);
    assert_eq!(batch.tasks[0].query, "SELECT rate_limit FROM t");
}

#[test]
fn limit_word_is_found_in_any_case() {
    assert!(has_limit("select 1 limit 2"));
    assert!(has_limit("SELECT 1 LiMiT 2"));
    assert!(has_limit("LIMIT"));
    assert!(has_limit("xlimitx"));
    assert!(!has_limit("SELECT 1"));
    assert!(!has_limit("limi"));
    assert!(!has_limit(""));
    assert!(!has_limit("l i m i t"));
    assert!(!has_limit("L\u{130}MIT"));
    assert!(has_limit("caf\u{e9} limit"));
}

#[test]
fn apply_auto_limit_cases() {
    let s = |t: &str| t.to_string();
    assert_eq!(apply_auto_limit(true, true, s("SELECT 1")), "SELECT 1 LIMIT 1000");
    assert_eq!(apply_auto_limit(false, true, s("SELECT 1")), "SELECT 1");
    assert_eq!(apply_auto_limit(true, false, s("DELETE FROM t")), "DELETE FROM t");
    assert_eq!(apply_auto_limit(true, true, s("SELECT 1 limit 3")), "SELECT 1 limit 3");
}

#[test]
fn result_ids_follow_statement_order() {
    let batch = submit("SELECT 1; SELECT 2; SELECT * FROM t", false);
    assert_eq!(batch.tasks.len(), 3);
    assert_eq!(
        batch.ack.result_sets,
        vec![
            "bff5e15f03c4dbf21fc878de8b3eb903".to_string(),
            "6871803a3703701aca56365ad675feb2".to_string(),
            "c109c307052933bcf7c0757b057219fd".to_string(),
        ]
    );
    for (k, task) in batch.tasks.iter().enumerate() {
        assert_eq!(task.query_idx, k);
        assert_eq!(task.id, batch.ack.result_sets[k]);
        assert_eq!(task.conn_id, "c1");
        assert_eq!(task.tab_idx, 0);
        assert_eq!(task.table, None);
    }
    assert_eq!(batch.ack.status, QueryTaskStatus::Progress);
    assert_eq!(batch.ack.conn_id, "c1");
    assert_eq!(batch.ack.tab_idx, 0);
}

#[test]
fn identical_statements_collapse() {
    let batch = submit("SELECT 1; SELECT 2; select 1", false);
    assert_eq!(
        batch.ack.result_sets,
        vec![
            "bff5e15f03c4dbf21fc878de8b3eb903".to_string(),
            "6871803a3703701aca56365ad675feb2".to_string(),
        ]
    );
    assert_eq!(batch.tasks.len(), 2);
    assert_eq!(batch.tasks[0].query_idx, 0);
    assert_eq!(batch.tasks[1].query_idx, 1);
}

#[test]
fn task_id_is_digest_of_connection_tab_and_text() {
    let id = task_id(&"c1".to_string(), 12, &"SELECT 1".to_string());
    assert_eq!(id, "db81918552b507fa12525ea76ab13e8c");
    let other = task_id(&"conn-1".to_string(), 0, &"SELECT * FROM t".to_string());
    assert_eq!(other, "595b28735a95cc15e827750a007d560e");
    assert_ne!(id, "c112SELECT 1");
}

#[test]
fn table_is_handed_to_every_task() {
    let res = enqueue_query(
        "c1".to_string(),
        Dialect::Mysql,
        3,
        "SELECT 1; SELECT 2",
        true,
        Some("users".to_string()),
    );
    let batch = res.unwrap();
    assert_eq!(batch.tasks.len(), 2);
    for task in batch.tasks.iter() {
        assert_eq!(task.table, Some("users".to_string()));
        assert_eq!(task.tab_idx, 3);
    }
    assert_eq!(batch.tasks[1].query, "SELECT 2 LIMIT 1000");
}

#[test]
fn malformed_sql_rejects_the_whole_batch() {
    let res = enqueue_query("c1".to_string(), Dialect::Sqlite, 0, "SELECT 1; SELEC 2", true, None);
    assert!(matches!(res, Err(Error::StatementParse(_))));
}

#[test]
fn empty_sql_has_no_statements() {
    let res = enqueue_query("c1".to_string(), Dialect::Postgresql, 0, "", true, None);
    assert_eq!(res, Err(Error::NoStatements));
    assert_eq!(plan_batch("c1".to_string(), 0, &vec![], true, None), Err(Error::NoStatements));
}

#[test]
fn parser_message_is_kept() {
    let res = batch_from_parse(Err("bad token".to_string()), "c".to_string(), 0, false, None);
    assert_eq!(res, Err(Error::StatementParse("bad token".to_string())));
}

#[test]
fn parser_canonicalizes_text() {
    let stmt = execute_query(Dialect::Postgresql, "select   a from t; select 2").unwrap();
    assert_eq!(stmt.text, "SELECT a FROM t");
    assert!(stmt.is_query);
    assert_eq!(get_query_type(&stmt), QueryType::Select);
}

#[test]
fn one_shot_rejections() {
    assert_eq!(execute_query(Dialect::Mysql, ""), Err(Error::NoStatements));
    assert!(matches!(execute_query(Dialect::Mysql, "SELEC"), Err(Error::StatementParse(_))));
    assert_eq!(first_statement(Ok(vec![])), Err(Error::NoStatements));
    let other = ParsedStatement { text: "DROP TABLE t".to_string(), is_query: false };
    assert_eq!(get_query_type(&other), QueryType::Other);
    assert_eq!(first_statement(Ok(vec![other.clone()])), Ok(other));
}

#[test]
fn decimal_strings() {
    assert_eq!(decimal_string(0), "0");
    assert_eq!(decimal_string(7), "7");
    assert_eq!(decimal_string(10), "10");
    assert_eq!(decimal_string(1234567890), "1234567890");
    assert_eq!(decimal_string(usize::MAX), usize::MAX.to_string());
}

#[test]
fn transaction_runs_all_then_commits() {
    let mut state = execute_tx(2);
    assert_eq!(state, TxState::Running(0));
    state = match tx_step(state, TxEvent::Done, 2) {
        TxStep::Next(s) => s,
        other => panic!("unexpected {:?}", other),
    };
    assert_eq!(state, TxState::Running(1));
    assert_eq!(tx_step(state, TxEvent::Done, 2), TxStep::Next(TxState::Committing));
    assert_eq!(tx_step(TxState::Committing, TxEvent::Done, 2), TxStep::Succeeded);
}

#[test]
fn transaction_rolls_back_on_second_statement() {
    let state = execute_tx(2);
    let state = match tx_step(state, TxEvent::Done, 2) {
        TxStep::Next(s) => s,
        other => panic!("unexpected {:?}", other),
    };
    let failed = tx_step(state, TxEvent::Failed("syntax error".to_string()), 2);
    assert_eq!(failed, TxStep::Next(TxState::RollingBack("syntax error".to_string())));
    let over = tx_step(TxState::RollingBack("syntax error".to_string()), TxEvent::Done, 2);
    assert_eq!(over, TxStep::Failed(Error::Transaction("syntax error".to_string())));
}

#[test]
fn transaction_edge_cases() {
    assert_eq!(execute_tx(0), TxState::Committing);
    assert_eq!(
        tx_step(TxState::Committing, TxEvent::Failed("disk full".to_string()), 1),
        TxStep::Failed(Error::Transaction("disk full".to_string()))
    );
    assert_eq!(
        tx_step(TxState::RollingBack("a".to_string()), TxEvent::Failed("b".to_string()), 1),
        TxStep::Failed(Error::Transaction("b".to_string()))
    );
    assert_eq!(
        tx_step(TxState::Running(usize::MAX), TxEvent::Done, 3),
        TxStep::Next(TxState::Committing)
    );
}

fn rows(n: usize) -> Vec<String> {
    (0..n).map(|i| format!("{{\"n\":{}}}", i)).collect()
}

#[test]
fn first_page_of_ten() {
    let all = rows(25);
    assert_eq!(paginate(&all, 0, 10), all[0..10].to_vec());
    assert_eq!(paginate(&all, 1, 10), all[10..20].to_vec());
    assert_eq!(paginate(&all, 2, 10), all[20..25].to_vec());
    assert_eq!(paginate(&all, 3, 10), Vec::<String>::new());
}

#[test]
fn first_page_of_short_result() {
    let all = rows(3);
    assert_eq!(paginate(&all, 0, 10), all);
    assert_eq!(paginate(&rows(0), 0, 10), Vec::<String>::new());
}

#[test]
fn out_of_range_pages_are_empty() {
    let all = rows(5);
    assert_eq!(paginate(&all, 1, 5), Vec::<String>::new());
    assert_eq!(paginate(&all, usize::MAX, 2), Vec::<String>::new());
    assert_eq!(paginate(&all, usize::MAX, usize::MAX), Vec::<String>::new());
    assert_eq!(paginate(&all, 0, 0), Vec::<String>::new());
    assert_eq!(paginate(&all, 0, usize::MAX), all);
}

#[test]
fn query_results_pages_or_expires() {
    let params = QueryResultParams { path: "/cache/abc".to_string(), page: 0, page_size: 10 };
    let all = rows(12);
    assert_eq!(query_results(Some(all.clone()), &params), Ok(all[0..10].to_vec()));
    assert_eq!(query_results(None, &params), Err(Error::QueryExpired));
}

#[test]
fn metadata_lives_beside_rows() {
    assert_eq!(metadata_path("/cache/abc"), "/cache/abc.metadata");
    assert_eq!(get_query_metadata(Some("{}".to_string())), Ok("{}".to_string()));
    assert_eq!(get_query_metadata(None), Err(Error::QueryExpired));
}

#[test]
fn eviction_names_both_files() {
    assert_eq!(
        invalidate_query("/cache/abc"),
        vec!["/cache/abc".to_string(), "/cache/abc.metadata".to_string()]
    );
}

#[test]
fn result_set_defaults() {
    let set = ResultSet::new(10, 20, None, None, None, rows(2));
    assert_eq!(set.start_time, 10);
    assert_eq!(set.end_time, 20);
    assert_eq!(set.affected_rows, 0);
    assert_eq!(set.warnings, 0);
    assert_eq!(set.info, "");
    assert_eq!(set.rows, rows(2));
    assert_eq!(set.table, TableMetadata::unknown());
    let full = ResultSet::new(1, 2, Some(7), Some(3), Some("ok".to_string()), vec![]);
    assert_eq!(full.affected_rows, 7);
    assert_eq!(full.warnings, 3);
    assert_eq!(full.info, "ok");
}

fn task() -> QueryTask {
    QueryTask {
        conn_id: "c1".to_string(),
        query: "SELECT 1".to_string(),
        t: QueryType::Select,
        id: "abc".to_string(),
        tab_idx: 2,
        query_idx: 1,
        table: None,
    }
}

#[test]
fn finished_task_reports_completion() {
    let event = finish_task(&task(), TaskOutcome::Persisted("/cache/abc".to_string()));
    assert_eq!(event.status, QueryTaskStatus::Completed);
    assert_eq!(event.id, "abc");
    assert_eq!(event.path, Some("/cache/abc".to_string()));
    assert_eq!(event.error, None);
    assert_eq!(event.tab_idx, 2);
    assert_eq!(event.query_idx, 1);
    assert_eq!(event.conn_id, "c1");
    assert_eq!(event.query, "SELECT 1");
}

#[test]
fn failed_task_reports_error() {
    let event = finish_task(&task(), TaskOutcome::Failed("relation missing".to_string()));
    assert_eq!(event.status, QueryTaskStatus::Error);
    assert_eq!(event.id, "abc");
    assert_eq!(event.path, None);
    assert_eq!(event.error, Some("relation missing".to_string()));
}
