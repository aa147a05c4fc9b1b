use vstd::prelude::*;
use vstd::string::*;
use crate::config::{text_of, ConnectionConfig, Dialect, Mode};
use crate::port::{parse_port, port_number};
use crate::error::Error;

verus! {

/// Seconds a pool waits for a connection to open.
pub const CONNECT_TIMEOUT_SECS: u64 = 15;

/// Whether a PostgreSQL connection asks for TLS.
#[derive(Clone, Copy, Debug, PartialEq, Eq, Structural)]
pub enum SslMode {
    Disable,
    Prefer,
    Require,
}

/// The connector a PostgreSQL pool is built with.
#[derive(Clone, Debug, PartialEq, Eq)]
pub enum TlsPlan {
    /// No TLS at all.
    Plaintext,
    /// TLS that accepts any peer, self-signed certificates included.
    Unverified,
    /// TLS that verifies the peer against a CA certificate file.
    VerifyPeer { ca_cert: String },
    /// TLS that verifies the peer and presents a client certificate and key.
    VerifyPeerWithIdentity { ca_cert: String, client_cert: String, client_key: String },
}

/// The mathematical content of a `TlsPlan`.
pub enum TlsModel {
    Plaintext,
    Unverified,
    VerifyPeer { ca_cert: Seq<char> },
    VerifyPeerWithIdentity { ca_cert: Seq<char>, client_cert: Seq<char>, client_key: Seq<char> },
}

impl View for TlsPlan {
    type V = TlsModel;

    open spec fn view(&self) -> TlsModel {
        match self {
            TlsPlan::Plaintext => TlsModel::Plaintext,
            TlsPlan::Unverified => TlsModel::Unverified,
            TlsPlan::VerifyPeer { ca_cert } => TlsModel::VerifyPeer { ca_cert: ca_cert@ },
            TlsPlan::VerifyPeerWithIdentity { ca_cert, client_cert, client_key } => {
                TlsModel::VerifyPeerWithIdentity {
                    ca_cert: ca_cert@,
                    client_cert: client_cert@,
                    client_key: client_key@,
                }
            },
        }
    }
}

/// How to open a MySQL pool. The options themselves are built from the
/// configuration's credentials by the driver.
#[derive(Clone, Debug, PartialEq, Eq)]
pub struct MysqlPlan {
    pub connect_timeout_secs: u64,
    pub prefer_socket: bool,
}

/// How to open a PostgreSQL pool.
#[derive(Clone, Debug, PartialEq, Eq)]
pub struct PostgresqlPlan {
    pub user: Option<String>,
    pub password: Option<String>,
    pub dbname: Option<String>,
    pub host: Option<String>,
    pub port: Option<u16>,
    pub connect_timeout_secs: u64,
    pub ssl_mode: SslMode,
    pub tls: TlsPlan,
    pub schema: String,
}

/// How to open a SQLite pool.
#[derive(Clone, Debug, PartialEq, Eq)]
pub struct SqlitePlan {
    pub path: String,
    pub schema: String,
}

/// What has to be done to open the pool of one connection.
#[derive(Clone, Debug, PartialEq, Eq)]
pub enum ConnectionPlan {
    Mysql(MysqlPlan),
    Postgresql(PostgresqlPlan),
    Sqlite(SqlitePlan),
}

/// The mathematical content of a `PostgresqlPlan`.
pub struct PostgresqlModel {
    pub user: Option<Seq<char>>,
    pub password: Option<Seq<char>>,
    pub dbname: Option<Seq<char>>,
    pub host: Option<Seq<char>>,
    pub port: Option<u16>,
    pub connect_timeout_secs: u64,
    pub ssl_mode: SslMode,
    pub tls: TlsModel,
    pub schema: Seq<char>,
}

/// The mathematical content of a `ConnectionPlan`.
pub enum PlanModel {
    Mysql { connect_timeout_secs: u64, prefer_socket: bool },
    Postgresql(PostgresqlModel),
    Sqlite { path: Seq<char>, schema: Seq<char> },
}

impl View for ConnectionPlan {
    type V = PlanModel;

    open spec fn view(&self) -> PlanModel {
        match self {
            ConnectionPlan::Mysql(p) => PlanModel::Mysql {
                connect_timeout_secs: p.connect_timeout_secs,
                prefer_socket: p.prefer_socket,
            },
            ConnectionPlan::Postgresql(p) => PlanModel::Postgresql(
                PostgresqlModel {
                    user: text_of(p.user),
                    password: text_of(p.password),
                    dbname: text_of(p.dbname),
                    host: text_of(p.host),
                    port: p.port,
                    connect_timeout_secs: p.connect_timeout_secs,
                    ssl_mode: p.ssl_mode,
                    tls: p.tls@,
                    schema: p.schema@,
                },
            ),
            ConnectionPlan::Sqlite(p) => PlanModel::Sqlite { path: p.path@, schema: p.schema@ },
        }
    }
}

/// The TLS setting that an `ssl_mode` credential asks for: `prefer` and
/// `require` by name, disabled for any other text.
pub open spec fn ssl_mode_of(text: Seq<char>) -> SslMode {
    if text == "prefer"@ {
        SslMode::Prefer
    } else if text == "require"@ {
        SslMode::Require
    } else {
        SslMode::Disable
    }
}

/// The connector chosen from the TLS setting and the three certificate
/// credentials (an absent credential reads as empty).
pub open spec fn tls_for(
    mode: SslMode,
    ca_cert: Seq<char>,
    client_cert: Seq<char>,
    client_key: Seq<char>,
) -> TlsModel {
    if mode == SslMode::Disable {
        TlsModel::Plaintext
    } else if ca_cert.len() > 0 && client_cert.len() > 0 && client_key.len() > 0 {
        TlsModel::VerifyPeerWithIdentity { ca_cert, client_cert, client_key }
    } else if ca_cert.len() > 0 {
        TlsModel::VerifyPeer { ca_cert }
    } else {
        TlsModel::Unverified
    }
}

/// Whether the `port` credential is present and not a 16-bit number.
pub open spec fn port_is_invalid(cfg: &ConnectionConfig) -> bool {
    match cfg.credential("port"@) {
        Some(p) => port_number(p) is None,
        None => false,
    }
}

/// The error a configuration is rejected with, `None` where it is accepted.
/// Checks come in this order: the mode against the dialect, the pairing of
/// client certificate and key, the presence of `ssl_mode`, the port.
pub open spec fn rejection(cfg: &ConnectionConfig) -> Option<Error> {
    match cfg.dialect {
        Dialect::Mysql => if cfg.mode == Mode::File {
            Some(Error::UnsupportedModeForDialect)
        } else {
            None
        },
        Dialect::Postgresql => if cfg.mode == Mode::File {
            Some(Error::UnsupportedModeForDialect)
        } else if cfg.is_set("client_cert"@) != cfg.is_set("client_key"@) {
            Some(Error::InvalidTlsConfiguration)
        } else if cfg.credential("ssl_mode"@) is None {
            Some(Error::MissingSslMode)
        } else if port_is_invalid(cfg) {
            Some(Error::InvalidPort)
        } else {
            None
        },
        Dialect::Sqlite => if cfg.mode != Mode::File {
            Some(Error::UnsupportedModeForDialect)
        } else {
            None
        },
    }
}

/// The plan of an accepted configuration.
pub open spec fn planned(cfg: &ConnectionConfig) -> PlanModel {
    match cfg.dialect {
        Dialect::Mysql => PlanModel::Mysql {
            connect_timeout_secs: CONNECT_TIMEOUT_SECS,
            prefer_socket: cfg.mode == Mode::Socket,
        },
        Dialect::Postgresql => {
            let mode = ssl_mode_of(cfg.credential_or_empty("ssl_mode"@));
            PlanModel::Postgresql(
                PostgresqlModel {
                    user: cfg.credential("user"@),
                    password: cfg.credential("password"@),
                    dbname: cfg.credential("db_name"@),
                    host: cfg.credential("host"@),
                    port: match cfg.credential("port"@) {
                        Some(p) => port_number(p),
                        None => None,
                    },
                    connect_timeout_secs: CONNECT_TIMEOUT_SECS,
                    ssl_mode: mode,
                    tls: tls_for(
                        mode,
                        cfg.credential_or_empty("ca_cert"@),
                        cfg.credential_or_empty("client_cert"@),
                        cfg.credential_or_empty("client_key"@),
                    ),
                    schema: "public"@,
                },
            )
        },
        Dialect::Sqlite => PlanModel::Sqlite {
            path: cfg.credential_or_empty("path"@),
            schema: cfg.credential_or_empty("path"@),
        },
    }
}

fn text_is(text: &String, literal: &str) -> (same: bool)
    ensures
        same == (text@ == literal@),
{
    let other = String::from_str(literal);
    *text == other
}

/// Reads the TLS setting out of an `ssl_mode` credential.
pub fn ssl_mode_from(text: &String) -> (mode: SslMode)
    ensures
        mode == ssl_mode_of(text@),
{
    if text_is(text, "prefer") {
        SslMode::Prefer
    } else if text_is(text, "require") {
        SslMode::Require
    } else {
        SslMode::Disable
    }
}

/// Chooses the connector for a TLS setting and the certificate credentials.
pub fn choose_tls(mode: SslMode, ca_cert: String, client_cert: String, client_key: String) -> (tls:
    TlsPlan)
    ensures
        tls@ == tls_for(mode, ca_cert@, client_cert@, client_key@),
{
    match mode {
        SslMode::Disable => TlsPlan::Plaintext,
        _ => {
            let has_ca = !ca_cert.as_str().is_empty();
            let has_cert = !client_cert.as_str().is_empty();
            let has_key = !client_key.as_str().is_empty();
            if has_ca && has_cert && has_key {
                TlsPlan::VerifyPeerWithIdentity { ca_cert, client_cert, client_key }
            } else if has_ca {
                TlsPlan::VerifyPeer { ca_cert }
            } else {
                TlsPlan::Unverified
            }
        },
    }
}

/// Validates a configuration and decides how its pool is opened. Nothing is
/// connected here: the caller performs the plan.
pub fn init_conn(cfg: &ConnectionConfig) -> (res: Result<ConnectionPlan, Error>)
    ensures
        match res {
            Ok(plan) => rejection(cfg) is None && plan@ == planned(cfg),
            Err(e) => rejection(cfg) == Some(e),
        },
{
    match cfg.dialect {
        Dialect::Mysql => {
            if cfg.mode == Mode::File {
                return Err(Error::UnsupportedModeForDialect);
            }
            Ok(
                ConnectionPlan::Mysql(
                    MysqlPlan {
                        connect_timeout_secs: CONNECT_TIMEOUT_SECS,
                        prefer_socket: cfg.mode == Mode::Socket,
                    },
                ),
            )
        },
        Dialect::Postgresql => {
            if cfg.mode == Mode::File {
                return Err(Error::UnsupportedModeForDialect);
            }
            let ca_cert = cfg.get_or_empty("ca_cert");
            let client_cert = cfg.get_or_empty("client_cert");
            let client_key = cfg.get_or_empty("client_key");
            if client_cert.as_str().is_empty() != client_key.as_str().is_empty() {
                return Err(Error::InvalidTlsConfiguration);
            }
            let ssl_mode = match cfg.get("ssl_mode") {
                Some(text) => ssl_mode_from(&text),
                None => { return Err(Error::MissingSslMode); },
            };
            let port = match cfg.get("port") {
                Some(text) => match parse_port(text.as_str()) {
                    Some(n) => Some(n),
                    None => { return Err(Error::InvalidPort); },
                },
                None => None,
            };
            Ok(
                ConnectionPlan::Postgresql(
                    PostgresqlPlan {
                        user: cfg.get("user"),
                        password: cfg.get("password"),
                        dbname: cfg.get("db_name"),
                        host: cfg.get("host"),
                        port,
                        connect_timeout_secs: CONNECT_TIMEOUT_SECS,
                        ssl_mode,
                        tls: choose_tls(ssl_mode, ca_cert, client_cert, client_key),
                        schema: String::from_str("public"),
                    },
                ),
            )
        },
        Dialect::Sqlite => {
            if cfg.mode != Mode::File {
                return Err(Error::UnsupportedModeForDialect);
            }
            let path = cfg.get_or_empty("path");
            let schema = path.clone();
            Ok(ConnectionPlan::Sqlite(SqlitePlan { path, schema }))
        },
    }
}

/// A network dialect never accepts a file.
pub proof fn file_mode_needs_sqlite(cfg: &ConnectionConfig)
    requires
        cfg.mode == Mode::File,
        cfg.dialect != Dialect::Sqlite,
    ensures
        rejection(cfg) == Some(Error::UnsupportedModeForDialect),
{
}

/// SQLite accepts nothing but a file.
pub proof fn sqlite_needs_file_mode(cfg: &ConnectionConfig)
    requires
        cfg.dialect == Dialect::Sqlite,
    ensures
        rejection(cfg) is None <==> cfg.mode == Mode::File,
{
}

/// A PostgreSQL configuration reached over the network or a socket is
/// rejected as an invalid TLS configuration exactly when one of client
/// certificate and client key is set without the other; with both or
/// neither it is accepted as soon as `ssl_mode` is present and the port, if
/// any, is a number.
pub proof fn client_identity_comes_in_pairs(cfg: &ConnectionConfig)
    requires
        cfg.dialect == Dialect::Postgresql,
        cfg.mode != Mode::File,
    ensures
        rejection(cfg) == Some(Error::InvalidTlsConfiguration) <==> (cfg.is_set("client_cert"@)
            != cfg.is_set("client_key"@)),
        cfg.is_set("client_cert"@) == cfg.is_set("client_key"@) && cfg.credential("ssl_mode"@)
            is Some && !port_is_invalid(cfg) ==> rejection(cfg) is None,
{
}

} // verus!
