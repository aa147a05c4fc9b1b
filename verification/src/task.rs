use vstd::prelude::*;
use vstd::string::*;
use sqlparser::ast::Statement;
use sqlparser::dialect::{MySqlDialect, PostgreSqlDialect, SQLiteDialect};
use sqlparser::parser::Parser;
use crate::config::{text_of, Dialect};
use crate::error::Error;
use crate::limit::{apply_auto_limit, limited};

verus! {

/// What a statement does, as far as the row limit cares.
#[derive(Clone, Copy, Debug, PartialEq, Eq, Structural)]
pub enum QueryType {
    Select,
    Other,
}

/// Where a task stands.
#[derive(Clone, Copy, Debug, PartialEq, Eq, Structural)]
pub enum QueryTaskStatus {
    Progress,
    Completed,
    Error,
}

/// One statement as the parser gave it back: its canonical text, and whether
/// it is a query.
#[derive(Clone, Debug, PartialEq, Eq)]
pub struct ParsedStatement {
    pub text: String,
    pub is_query: bool,
}

/// One statement waiting for the worker.
#[derive(Clone, Debug, PartialEq, Eq)]
pub struct QueryTask {
    pub conn_id: String,
    pub query: String,
    pub t: QueryType,
    pub id: String,
    pub tab_idx: usize,
    pub query_idx: usize,
    pub table: Option<String>,
}

/// What the caller gets back at once when a batch is accepted.
#[derive(Clone, Debug, PartialEq, Eq)]
pub struct QueryTaskEnqueueResult {
    pub conn_id: String,
    pub tab_idx: usize,
    pub status: QueryTaskStatus,
    pub result_sets: Vec<String>,
}

/// An accepted batch: the tasks to push onto the queue, in order, and the
/// acknowledgment for the caller.
#[derive(Clone, Debug, PartialEq, Eq)]
pub struct Batch {
    pub tasks: Vec<QueryTask>,
    pub ack: QueryTaskEnqueueResult,
}

/// The statements that the SQL parser reads out of a text under a dialect
/// (given by its name), each as its canonical text and whether it is a
/// query; or the parser's message where the text does not parse.
pub uninterp spec fn parsed_sql(dialect: Seq<char>, sql: Seq<char>) -> Result<
    Seq<(Seq<char>, bool)>,
    Seq<char>,
>;

/// The MD5 digest of a text's UTF-8 bytes, as small hexadecimal digits.
pub uninterp spec fn md5_hex(text: Seq<char>) -> Seq<char>;

/// The statements of a list, each as a pair of text and query flag.
pub open spec fn statements_of(list: Seq<ParsedStatement>) -> Seq<(Seq<char>, bool)> {
    Seq::new(list.len(), |i: int| (list[i].text@, list[i].is_query))
}

/// The mathematical content of a parser outcome.
pub open spec fn parse_model(res: Result<Vec<ParsedStatement>, String>) -> Result<
    Seq<(Seq<char>, bool)>,
    Seq<char>,
> {
    match res {
        Ok(list) => Ok(statements_of(list@)),
        Err(m) => Err(m@),
    }
}

/// Calls `sqlparser::parser::Parser::parse_sql` with the dialect object that
/// belongs to the dialect, and hands each statement back as its `to_string`
/// text with a flag that tells `Statement::Query` from the rest. The contract
/// only names the outcome: it is a function of dialect and text.
#[verifier::external_body]
fn parse_sql(dialect: Dialect, sql: &str) -> (res: Result<Vec<ParsedStatement>, String>)
    ensures
        parse_model(res) == parsed_sql(dialect.name_text(), sql@),
{
    let parsed = match dialect {
        Dialect::Mysql => Parser::parse_sql(&MySqlDialect {}, sql),
        Dialect::Postgresql => Parser::parse_sql(&PostgreSqlDialect {}, sql),
        Dialect::Sqlite => Parser::parse_sql(&SQLiteDialect {}, sql),
    };
    match parsed {
        Ok(list) => Ok(
            list.into_iter().map(
                |s| ParsedStatement { text: s.to_string(), is_query: matches!(s, Statement::Query(_)) },
            ).collect(),
        ),
        Err(e) => Err(e.to_string()),
    }
}

/// Calls `md5::compute` on the text's bytes and formats the digest with
/// `{:x}`. The contract only names the outcome: it is a function of the text.
#[verifier::external_body]
fn md5_hash(text: &str) -> (hex: String)
    ensures
        hex@ == md5_hex(text@),
{
    format!("{:x}", md5::compute(text))
}

/// The character of one decimal digit.
pub open spec fn digit(d: nat) -> char {
    if d == 0 {
        '0'
    } else if d == 1 {
        '1'
    } else if d == 2 {
        '2'
    } else if d == 3 {
        '3'
    } else if d == 4 {
        '4'
    } else if d == 5 {
        '5'
    } else if d == 6 {
        '6'
    } else if d == 7 {
        '7'
    } else if d == 8 {
        '8'
    } else {
        '9'
    }
}

/// A number in decimal notation, without leading zeros.
pub open spec fn decimal(n: nat) -> Seq<char>
    decreases n,
{
    if n < 10 {
        seq![digit(n)]
    } else {
        decimal(n / 10) + seq![digit(n % 10)]
    }
}

fn digit_str(d: usize) -> (s: &'static str)
    requires
        d < 10,
    ensures
        s@ == seq![digit(d as nat)],
{
    proof {
        reveal_strlit("0");
        reveal_strlit("1");
        reveal_strlit("2");
        reveal_strlit("3");
        reveal_strlit("4");
        reveal_strlit("5");
        reveal_strlit("6");
        reveal_strlit("7");
        reveal_strlit("8");
        reveal_strlit("9");
    }
    let s = match d {
        0 => "0",
        1 => "1",
        2 => "2",
        3 => "3",
        4 => "4",
        5 => "5",
        6 => "6",
        7 => "7",
        8 => "8",
        _ => "9",
    };
    assert(s@ =~= seq![digit(d as nat)]);
    s
}

/// Writes a number in decimal notation.
pub fn decimal_string(n: usize) -> (s: String)
    ensures
        s@ == decimal(n as nat),
    decreases n,
{
    if n < 10 {
        String::from_str(digit_str(n))
    } else {
        decimal_string(n / 10).concat(digit_str(n % 10))
    }
}

/// The text a task's identifier is the digest of: connection identifier,
/// tab index in decimal, statement text, one after the other.
pub open spec fn id_source(conn_id: Seq<char>, tab_idx: nat, text: Seq<char>) -> Seq<char> {
    conn_id + decimal(tab_idx) + text
}

/// The identifier of the task for one statement.
pub open spec fn task_id_of(conn_id: Seq<char>, tab_idx: nat, text: Seq<char>) -> Seq<char> {
    md5_hex(id_source(conn_id, tab_idx, text))
}

/// Computes the identifier of the task for one statement.
pub fn task_id(conn_id: &String, tab_idx: usize, text: &String) -> (id: String)
    ensures
        id@ == task_id_of(conn_id@, tab_idx as nat, text@),
{
    let source = conn_id.clone().concat(decimal_string(tab_idx).as_str()).concat(text.as_str());
    md5_hash(source.as_str())
}

/// Classifies a parsed statement.
pub fn get_query_type(s: &ParsedStatement) -> (t: QueryType)
    ensures
        t == kind_of(s.is_query),
{
    if s.is_query {
        QueryType::Select
    } else {
        QueryType::Other
    }
}

/// A query selects; anything else is `Other`.
pub open spec fn kind_of(is_query: bool) -> QueryType {
    if is_query {
        QueryType::Select
    } else {
        QueryType::Other
    }
}

/// The identifiers of a batch's statements, one per statement, in order.
pub open spec fn batch_ids(conn_id: Seq<char>, tab_idx: nat, stmts: Seq<(Seq<char>, bool)>) -> Seq<
    Seq<char>,
> {
    Seq::new(stmts.len(), |i: int| task_id_of(conn_id, tab_idx, stmts[i].0))
}

/// Whether no earlier position holds the identifier at position `i`.
pub open spec fn first_occurrence(ids: Seq<Seq<char>>, i: int) -> bool {
    forall|j: int| 0 <= j < i ==> ids[j] != ids[i]
}

/// The positions below `n` at which an identifier occurs for the first
/// time, in rising order.
pub open spec fn kept(ids: Seq<Seq<char>>, n: int) -> Seq<int>
    decreases n,
{
    if n <= 0 {
        Seq::<int>::empty()
    } else if first_occurrence(ids, n - 1) {
        kept(ids, n - 1).push(n - 1)
    } else {
        kept(ids, n - 1)
    }
}

/// Whether a task is the one made for the statement at position `idx`.
pub open spec fn task_matches(
    task: QueryTask,
    conn_id: Seq<char>,
    tab_idx: usize,
    stmts: Seq<(Seq<char>, bool)>,
    idx: int,
    auto_limit: bool,
    table: Option<Seq<char>>,
) -> bool {
    &&& task.conn_id@ == conn_id
    &&& task.query@ == limited(auto_limit, stmts[idx].1, stmts[idx].0)
    &&& task.t == kind_of(stmts[idx].1)
    &&& task.id@ == task_id_of(conn_id, tab_idx as nat, stmts[idx].0)
    &&& task.tab_idx == tab_idx
    &&& task.query_idx == idx
    &&& text_of(task.table) == table
}

/// Whether a batch is the one made for a list of parsed statements: one
/// task for each statement whose identifier did not occur earlier in the
/// list, in the order of the statements, and an acknowledgment in progress
/// that lists the identifiers of those tasks in the same order.
pub open spec fn batch_matches(
    batch: Batch,
    conn_id: Seq<char>,
    tab_idx: usize,
    stmts: Seq<(Seq<char>, bool)>,
    auto_limit: bool,
    table: Option<Seq<char>>,
) -> bool {
    let ids = batch_ids(conn_id, tab_idx as nat, stmts);
    let chosen = kept(ids, stmts.len() as int);
    &&& batch.ack.conn_id@ == conn_id
    &&& batch.ack.tab_idx == tab_idx
    &&& batch.ack.status == QueryTaskStatus::Progress
    &&& batch.tasks@.len() == chosen.len()
    &&& batch.ack.result_sets@.len() == chosen.len()
    &&& forall|k: int|
        0 <= k < chosen.len() ==> 0 <= #[trigger] chosen[k] < stmts.len() && task_matches(
            batch.tasks@[k],
            conn_id,
            tab_idx,
            stmts,
            chosen[k],
            auto_limit,
            table,
        ) && batch.ack.result_sets@[k]@ == ids[chosen[k]]
}

/// What holds of the chosen positions: each lies below `n`, is a first
/// occurrence, they rise strictly, and every identifier below `n` is the
/// identifier at one of them.
pub proof fn kept_properties(ids: Seq<Seq<char>>, n: int)
    requires
        0 <= n <= ids.len(),
    ensures
        kept(ids, n).len() <= n,
        forall|k: int|
            0 <= k < kept(ids, n).len() ==> 0 <= #[trigger] kept(ids, n)[k] < n
                && first_occurrence(ids, kept(ids, n)[k]),
        forall|a: int, b: int|
            0 <= a < b < kept(ids, n).len() ==> #[trigger] kept(ids, n)[a] < #[trigger] kept(
                ids,
                n,
            )[b],
        forall|j: int|
            0 <= j < n ==> exists|k: int|
                0 <= k < kept(ids, n).len() && ids[#[trigger] kept(ids, n)[k]] == #[trigger] ids[j],
    decreases n,
{
    if n > 0 {
        kept_properties(ids, n - 1);
        let before = kept(ids, n - 1);
        let now = kept(ids, n);
        assert forall|j: int| 0 <= j < n implies exists|k: int|
            0 <= k < now.len() && ids[#[trigger] now[k]] == #[trigger] ids[j] by {
            if j < n - 1 {
                let k = choose|k: int| 0 <= k < before.len() && ids[#[trigger] before[k]] == ids[j];
                assert(now[k] == before[k]);
            } else if first_occurrence(ids, n - 1) {
                assert(now[now.len() - 1] == n - 1);
            } else {
                let j2 = choose|j2: int| 0 <= j2 < n - 1 && #[trigger] ids[j2] == ids[n - 1];
                let k = choose|k: int|
                    0 <= k < before.len() && ids[#[trigger] before[k]] == ids[j2];
                assert(now[k] == before[k]);
            }
        }
    }
}

fn copy_of(text: &Option<String>) -> (out: Option<String>)
    ensures
        text_of(out) == text_of(*text),
{
    match text {
        Some(t) => Some(t.clone()),
        None => None,
    }
}

fn position_of(ids: &Vec<String>, id: &String) -> (found: Option<usize>)
    ensures
        match found {
            Some(k) => k < ids@.len() && ids@[k as int]@ == id@,
            None => forall|k: int| 0 <= k < ids@.len() ==> ids@[k]@ != id@,
        },
{
    let mut k: usize = 0;
    while k < ids.len()
        invariant
            k <= ids@.len(),
            forall|m: int| 0 <= m < k ==> ids@[m]@ != id@,
        decreases ids@.len() - k,
    {
        if ids[k] == *id {
            return Some(k);
        }
        k = k + 1;
    }
    None
}

/// Turns the parsed statements of one submission into the tasks to run and
/// the acknowledgment for the caller. Two statements with the same
/// identifier collapse into the task of the first.
pub fn plan_batch(
    conn_id: String,
    tab_idx: usize,
    statements: &Vec<ParsedStatement>,
    auto_limit: bool,
    table: Option<String>,
) -> (res: Result<Batch, Error>)
    ensures
        statements@.len() == 0 ==> res is Err && res->Err_0 == Error::NoStatements,
        statements@.len() > 0 ==> res is Ok && batch_matches(
            res->Ok_0,
            conn_id@,
            tab_idx,
            statements_of(statements@),
            auto_limit,
            text_of(table),
        ),
{
    if statements.len() == 0 {
        return Err(Error::NoStatements);
    }
    let ghost stmts = statements_of(statements@);
    let ghost ids = batch_ids(conn_id@, tab_idx as nat, stmts);
    let mut tasks: Vec<QueryTask> = Vec::new();
    let mut result_sets: Vec<String> = Vec::new();
    let mut idx: usize = 0;
    while idx < statements.len()
        invariant
            idx <= statements@.len(),
            stmts == statements_of(statements@),
            ids == batch_ids(conn_id@, tab_idx as nat, stmts),
            tasks@.len() == kept(ids, idx as int).len(),
            result_sets@.len() == kept(ids, idx as int).len(),
            forall|k: int|
                0 <= k < kept(ids, idx as int).len() ==> 0 <= #[trigger] kept(ids, idx as int)[k]
                    < idx && task_matches(
                    tasks@[k],
                    conn_id@,
                    tab_idx,
                    stmts,
                    kept(ids, idx as int)[k],
                    auto_limit,
                    text_of(table),
                ) && result_sets@[k]@ == ids[kept(ids, idx as int)[k]],
        decreases statements@.len() - idx,
    {
        let stmt = &statements[idx];
        let id = task_id(&conn_id, tab_idx, &stmt.text);
        let ghost before = kept(ids, idx as int);
        proof {
            kept_properties(ids, idx as int);
            assert(ids[idx as int] == id@);
        }
        match position_of(&result_sets, &id) {
            Some(k) => {
                proof {
                    assert(ids[before[k as int]] == ids[idx as int]);
                    assert(!first_occurrence(ids, idx as int));
                }
            },
            None => {
                proof {
                    assert forall|j: int| 0 <= j < idx implies ids[j] != ids[idx as int] by {
                        let k = choose|k: int|
                            0 <= k < before.len() && ids[#[trigger] before[k]] == ids[j];
                        assert(result_sets@[k]@ == ids[before[k]]);
                    }
                    assert(first_occurrence(ids, idx as int));
                }
                let query = apply_auto_limit(auto_limit, stmt.is_query, stmt.text.clone());
                tasks.push(
                    QueryTask {
                        conn_id: conn_id.clone(),
                        query,
                        t: get_query_type(stmt),
                        id: id.clone(),
                        tab_idx,
                        query_idx: idx,
                        table: copy_of(&table),
                    },
                );
                result_sets.push(id);
            },
        }
        idx = idx + 1;
    }
    Ok(
        Batch {
            tasks,
            ack: QueryTaskEnqueueResult {
                conn_id,
                tab_idx,
                status: QueryTaskStatus::Progress,
                result_sets,
            },
        },
    )
}

/// The outcome of a submission, given what the parser made of its text: a
/// text that does not parse is rejected with the parser's message, one
/// without statements is rejected too, and any other becomes a batch.
pub open spec fn submission_matches(
    res: Result<Batch, Error>,
    parsed: Result<Seq<(Seq<char>, bool)>, Seq<char>>,
    conn_id: Seq<char>,
    tab_idx: usize,
    auto_limit: bool,
    table: Option<Seq<char>>,
) -> bool {
    match parsed {
        Err(m) => res is Err && res->Err_0 is StatementParse && res->Err_0.detail() == m,
        Ok(stmts) => if stmts.len() == 0 {
            res is Err && res->Err_0 == Error::NoStatements
        } else {
            res is Ok && batch_matches(res->Ok_0, conn_id, tab_idx, stmts, auto_limit, table)
        },
    }
}

/// Finishes a submission from the parser's outcome.
pub fn batch_from_parse(
    parsed: Result<Vec<ParsedStatement>, String>,
    conn_id: String,
    tab_idx: usize,
    auto_limit: bool,
    table: Option<String>,
) -> (res: Result<Batch, Error>)
    ensures
        submission_matches(
            res,
            parse_model(parsed),
            conn_id@,
            tab_idx,
            auto_limit,
            text_of(table),
        ),
{
    match parsed {
        Err(m) => Err(Error::StatementParse(m)),
        Ok(list) => plan_batch(conn_id, tab_idx, &list, auto_limit, table),
    }
}

/// Accepts one submission of SQL text for a connection: parses it under the
/// connection's dialect and, where it parses, prepares one task per
/// statement. Nothing is queued here: the caller pushes the tasks, in
/// order, and hands the acknowledgment back.
pub fn enqueue_query(
    conn_id: String,
    dialect: Dialect,
    tab_idx: usize,
    sql: &str,
    auto_limit: bool,
    table: Option<String>,
) -> (res: Result<Batch, Error>)
    ensures
        submission_matches(
            res,
            parsed_sql(dialect.name_text(), sql@),
            conn_id@,
            tab_idx,
            auto_limit,
            text_of(table),
        ),
{
    let parsed = parse_sql(dialect, sql);
    batch_from_parse(parsed, conn_id, tab_idx, auto_limit, table)
}

/// The statement a one-shot execution runs, given what the parser made of
/// its text: the first one. A text that does not parse is rejected with the
/// parser's message, one without statements is rejected too.
pub open spec fn one_shot_matches(
    res: Result<ParsedStatement, Error>,
    parsed: Result<Seq<(Seq<char>, bool)>, Seq<char>>,
) -> bool {
    match parsed {
        Err(m) => res is Err && res->Err_0 is StatementParse && res->Err_0.detail() == m,
        Ok(stmts) => if stmts.len() == 0 {
            res is Err && res->Err_0 == Error::NoStatements
        } else {
            res is Ok && res->Ok_0.text@ == stmts[0].0 && res->Ok_0.is_query == stmts[0].1
        },
    }
}

/// Picks the statement of a one-shot execution from the parser's outcome.
pub fn first_statement(parsed: Result<Vec<ParsedStatement>, String>) -> (res: Result<
    ParsedStatement,
    Error,
>)
    ensures
        one_shot_matches(res, parse_model(parsed)),
{
    match parsed {
        Err(m) => Err(Error::StatementParse(m)),
        Ok(list) => {
            let mut list = list;
            if list.len() == 0 {
                Err(Error::NoStatements)
            } else {
                Ok(list.swap_remove(0))
            }
        },
    }
}

/// Prepares a one-shot execution that bypasses the queue: parses the text
/// under the connection's dialect and picks its first statement. The caller
/// runs it.
pub fn execute_query(dialect: Dialect, sql: &str) -> (res: Result<ParsedStatement, Error>)
    ensures
        one_shot_matches(res, parsed_sql(dialect.name_text(), sql@)),
{
    first_statement(parse_sql(dialect, sql))
}

/// Whether no identifier occurs twice in a list.
pub open spec fn all_distinct(ids: Seq<Seq<char>>) -> bool {
    forall|i: int, j: int| 0 <= i < j < ids.len() ==> ids[i] != ids[j]
}

/// Where no identifier occurs twice, every position is chosen.
pub proof fn kept_of_distinct(ids: Seq<Seq<char>>, n: int)
    requires
        0 <= n <= ids.len(),
        all_distinct(ids),
    ensures
        kept(ids, n) == Seq::new(n as nat, |i: int| i),
    decreases n,
{
    if n > 0 {
        kept_of_distinct(ids, n - 1);
        assert(first_occurrence(ids, n - 1));
        assert(kept(ids, n) =~= Seq::new(n as nat, |i: int| i));
    } else {
        assert(kept(ids, n) =~= Seq::new(n as nat, |i: int| i));
    }
}

/// The acknowledgment of a batch never lists an identifier twice, its
/// tasks come in the order of their statements, and every statement's
/// identifier is listed.
pub proof fn batch_ids_are_unique_and_ordered(
    batch: Batch,
    conn_id: Seq<char>,
    tab_idx: usize,
    stmts: Seq<(Seq<char>, bool)>,
    auto_limit: bool,
    table: Option<Seq<char>>,
)
    requires
        batch_matches(batch, conn_id, tab_idx, stmts, auto_limit, table),
    ensures
        batch.ack.result_sets@.len() == batch.tasks@.len(),
        batch.tasks@.len() <= stmts.len(),
        forall|a: int, b: int|
            0 <= a < b < batch.ack.result_sets@.len() ==> batch.ack.result_sets@[a]@
                != batch.ack.result_sets@[b]@,
        forall|a: int, b: int|
            0 <= a < b < batch.tasks@.len() ==> batch.tasks@[a].query_idx
                < batch.tasks@[b].query_idx,
        forall|k: int|
            0 <= k < batch.tasks@.len() ==> batch.tasks@[k].id@ == batch.ack.result_sets@[k]@,
        forall|j: int|
            0 <= j < stmts.len() ==> exists|k: int|
                0 <= k < batch.ack.result_sets@.len() && #[trigger] batch.ack.result_sets@[k]@
                    == task_id_of(conn_id, tab_idx as nat, #[trigger] stmts[j].0),
{
    let ids = batch_ids(conn_id, tab_idx as nat, stmts);
    let n = stmts.len() as int;
    let chosen = kept(ids, n);
    kept_properties(ids, n);
    assert forall|a: int, b: int| 0 <= a < b < batch.ack.result_sets@.len() implies batch.ack.result_sets@[a]@
        != batch.ack.result_sets@[b]@ by {
        assert(chosen[a] < chosen[b]);
        assert(first_occurrence(ids, chosen[b]));
    }
    assert forall|a: int, b: int| 0 <= a < b < batch.tasks@.len() implies batch.tasks@[a].query_idx
        < batch.tasks@[b].query_idx by {
        assert(chosen[a] < chosen[b]);
    }
    assert forall|k: int| 0 <= k < batch.tasks@.len() implies batch.tasks@[k].id@
        == batch.ack.result_sets@[k]@ by {
        assert(0 <= chosen[k] < n);
    }
    assert forall|j: int| 0 <= j < stmts.len() implies exists|k: int|
        0 <= k < batch.ack.result_sets@.len() && #[trigger] batch.ack.result_sets@[k]@
            == task_id_of(conn_id, tab_idx as nat, #[trigger] stmts[j].0) by {
        assert(ids[j] == task_id_of(conn_id, tab_idx as nat, stmts[j].0));
        let k = choose|k: int| 0 <= k < chosen.len() && ids[#[trigger] chosen[k]] == ids[j];
        assert(batch.ack.result_sets@[k]@ == ids[chosen[k]]);
    }
}

/// Where the statements of a batch have identifiers that all differ, the
/// acknowledgment lists one identifier per statement, in the order of the
/// statements, and there is one task per statement.
pub proof fn batch_of_distinct_statements_is_complete(
    batch: Batch,
    conn_id: Seq<char>,
    tab_idx: usize,
    stmts: Seq<(Seq<char>, bool)>,
    auto_limit: bool,
    table: Option<Seq<char>>,
)
    requires
        batch_matches(batch, conn_id, tab_idx, stmts, auto_limit, table),
        all_distinct(batch_ids(conn_id, tab_idx as nat, stmts)),
    ensures
        batch.ack.result_sets@.len() == stmts.len(),
        batch.tasks@.len() == stmts.len(),
        forall|i: int|
            0 <= i < stmts.len() ==> #[trigger] batch.ack.result_sets@[i]@ == task_id_of(
                conn_id,
                tab_idx as nat,
                stmts[i].0,
            ) && batch.tasks@[i].query_idx == i,
{
    let ids = batch_ids(conn_id, tab_idx as nat, stmts);
    let n = stmts.len() as int;
    kept_of_distinct(ids, n);
    assert forall|i: int| 0 <= i < stmts.len() implies #[trigger] batch.ack.result_sets@[i]@
        == task_id_of(conn_id, tab_idx as nat, stmts[i].0) && batch.tasks@[i].query_idx == i by {
        assert(kept(ids, n)[i] == i);
    }
}

} // verus!
