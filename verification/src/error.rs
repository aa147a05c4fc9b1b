use vstd::prelude::*;
use vstd::string::*;

verus! {

/// Everything that can go wrong in the query execution core.
#[derive(Clone, Debug, PartialEq, Eq)]
pub enum Error {
    /// No connection is registered under the requested identifier.
    ConnectionNotFound,
    /// The transport mode cannot be used with the dialect.
    UnsupportedModeForDialect,
    /// A client certificate was given without its key, or the reverse.
    InvalidTlsConfiguration,
    /// A PostgreSQL configuration carries no `ssl_mode` credential.
    MissingSslMode,
    /// The `port` credential is not a 16-bit number.
    InvalidPort,
    /// The pool could not be constructed.
    PoolCreation(String),
    /// The pool was constructed but its first connection failed.
    PoolUsability(String),
    /// The submitted SQL text does not parse.
    StatementParse(String),
    /// The submitted SQL text holds no statement.
    NoStatements,
    /// The driver reported a failure while running a statement.
    QueryExecution(String),
    /// A transaction was rolled back; carries the driver's message.
    Transaction(String),
    /// The cached result is gone.
    QueryExpired,
    /// An export was asked for of a result without rows.
    NothingToExport,
    /// A row handed to an export is not an object, or lacks a column that
    /// the first row has.
    MalformedRow,
}

impl Error {
    /// The fixed part of the text shown for an error.
    pub open spec fn label(&self) -> Seq<char> {
        match self {
            Error::ConnectionNotFound => "Connection not found"@,
            Error::UnsupportedModeForDialect => "Mode is not supported for this dialect"@,
            Error::InvalidTlsConfiguration => "client_cert and client_key must be set together"@,
            Error::MissingSslMode => "ssl_mode is required"@,
            Error::InvalidPort => "Port should be a valid number"@,
            Error::PoolCreation(_) => "Cannot create pool: "@,
            Error::PoolUsability(_) => "Cannot use pool: "@,
            Error::StatementParse(_) => "Cannot parse statement: "@,
            Error::NoStatements => "No statements found"@,
            Error::QueryExecution(_) => "Query failed: "@,
            Error::Transaction(_) => "Transaction failed: "@,
            Error::QueryExpired => "Query expired"@,
            Error::NothingToExport => "Nothing to export"@,
            Error::MalformedRow => "Malformed row"@,
        }
    }

    /// The message an error carries from the driver or parser, empty where it
    /// carries none.
    pub open spec fn detail(&self) -> Seq<char> {
        match self {
            Error::PoolCreation(m) => m@,
            Error::PoolUsability(m) => m@,
            Error::StatementParse(m) => m@,
            Error::QueryExecution(m) => m@,
            Error::Transaction(m) => m@,
            _ => Seq::<char>::empty(),
        }
    }

    /// The text shown for an error: its label followed by its detail.
    pub fn message(&self) -> (text: String)
        ensures
            text@ == self.label() + self.detail(),
    {
        match self {
            Error::ConnectionNotFound => plain("Connection not found"),
            Error::UnsupportedModeForDialect => plain("Mode is not supported for this dialect"),
            Error::InvalidTlsConfiguration => plain("client_cert and client_key must be set together"),
            Error::MissingSslMode => plain("ssl_mode is required"),
            Error::InvalidPort => plain("Port should be a valid number"),
            Error::PoolCreation(m) => labelled("Cannot create pool: ", m.as_str()),
            Error::PoolUsability(m) => labelled("Cannot use pool: ", m.as_str()),
            Error::StatementParse(m) => labelled("Cannot parse statement: ", m.as_str()),
            Error::NoStatements => plain("No statements found"),
            Error::QueryExecution(m) => labelled("Query failed: ", m.as_str()),
            Error::Transaction(m) => labelled("Transaction failed: ", m.as_str()),
            Error::QueryExpired => plain("Query expired"),
            Error::NothingToExport => plain("Nothing to export"),
            Error::MalformedRow => plain("Malformed row"),
        }
    }
}

fn labelled(label: &str, detail: &str) -> (text: String)
    ensures
        text@ == label@ + detail@,
{
    String::from_str(label).concat(detail)
}

fn plain(label: &str) -> (text: String)
    ensures
        text@ == label@ + Seq::<char>::empty(),
{
    assert(label@ + Seq::<char>::empty() =~= label@);
    String::from_str(label)
}

} // verus!
