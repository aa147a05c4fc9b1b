use vstd::prelude::*;
use vstd::string::*;
use crate::config::text_of;
use crate::task::{QueryTask, QueryTaskStatus};

verus! {

/// What is known of the table a result came from. Keys and column
/// descriptors are carried as the texts in which they are persisted.
#[derive(Clone, Debug, PartialEq, Eq)]
pub struct TableMetadata {
    pub table: String,
    pub primary_key: Option<Vec<String>>,
    pub foreign_keys: Option<Vec<String>>,
    pub columns: Option<Vec<String>>,
}

/// The outcome of one statement: when it ran (milliseconds since the
/// epoch), what the driver reported, and the rows, each as the text in which
/// it is persisted.
#[derive(Clone, Debug, PartialEq, Eq)]
pub struct ResultSet {
    pub start_time: u64,
    pub end_time: u64,
    pub affected_rows: u64,
    pub warnings: u16,
    pub info: String,
    pub rows: Vec<String>,
    pub table: TableMetadata,
}

/// What the worker reports when a task is over.
#[derive(Clone, Debug, PartialEq, Eq)]
pub struct QueryTaskResult {
    pub conn_id: String,
    pub status: QueryTaskStatus,
    pub query: String,
    pub id: String,
    pub path: Option<String>,
    pub error: Option<String>,
    pub tab_idx: usize,
    pub query_idx: usize,
}

impl TableMetadata {
    /// The metadata of a result whose table is not known.
    pub fn unknown() -> (m: TableMetadata)
        ensures
            m.table@.len() == 0,
            m.primary_key is None,
            m.foreign_keys is None,
            m.columns is None,
    {
        TableMetadata {
            table: String::new(),
            primary_key: None,
            foreign_keys: None,
            columns: None,
        }
    }
}

impl ResultSet {
    /// Puts a result together from what was measured around a statement and
    /// what the driver gave back. A driver that reports no count of affected
    /// rows counts as none affected, one that reports no warnings or
    /// information as zero warnings and empty information.
    pub fn new(
        start_time: u64,
        end_time: u64,
        affected_rows: Option<u64>,
        warnings: Option<u16>,
        info: Option<String>,
        rows: Vec<String>,
    ) -> (set: ResultSet)
        ensures
            set.start_time == start_time,
            set.end_time == end_time,
            set.affected_rows == (match affected_rows {
                Some(n) => n,
                None => 0,
            }),
            set.warnings == (match warnings {
                Some(n) => n,
                None => 0,
            }),
            set.info@ == (match info {
                Some(t) => t@,
                None => Seq::<char>::empty(),
            }),
            set.rows == rows,
            set.table.table@.len() == 0,
            set.table.primary_key is None,
            set.table.foreign_keys is None,
            set.table.columns is None,
    {
        ResultSet {
            start_time,
            end_time,
            affected_rows: match affected_rows {
                Some(n) => n,
                None => 0,
            },
            warnings: match warnings {
                Some(n) => n,
                None => 0,
            },
            info: match info {
                Some(t) => t,
                None => String::new(),
            },
            rows,
            table: TableMetadata::unknown(),
        }
    }
}

/// What a task's execution came to: the path under which its result was
/// persisted, or the message of its failure.
#[derive(Clone, Debug, PartialEq, Eq)]
pub enum TaskOutcome {
    Persisted(String),
    Failed(String),
}

/// The event for a finished task: completed, with the path of its result,
/// where the statement ran and its rows were persisted; an error with the
/// message otherwise. Either way the event names the task it is about, and
/// the worker goes on with the next task.
pub fn finish_task(task: &QueryTask, outcome: TaskOutcome) -> (event: QueryTaskResult)
    ensures
        event.conn_id@ == task.conn_id@,
        event.query@ == task.query@,
        event.id@ == task.id@,
        event.tab_idx == task.tab_idx,
        event.query_idx == task.query_idx,
        match outcome {
            TaskOutcome::Persisted(path) => event.status == QueryTaskStatus::Completed
                && text_of(event.path) == Some(path@) && event.error is None,
            TaskOutcome::Failed(message) => event.status == QueryTaskStatus::Error
                && event.path is None && text_of(event.error) == Some(message@),
        },
{
    let (status, path, error) = match outcome {
        TaskOutcome::Persisted(path) => (QueryTaskStatus::Completed, Some(path), None),
        TaskOutcome::Failed(message) => (QueryTaskStatus::Error, None, Some(message)),
    };
    QueryTaskResult {
        conn_id: task.conn_id.clone(),
        status,
        query: task.query.clone(),
        id: task.id.clone(),
        path,
        error,
        tab_idx: task.tab_idx,
        query_idx: task.query_idx,
    }
}

} // verus!
