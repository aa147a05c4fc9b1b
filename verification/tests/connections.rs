use query_noir::config::{ConnectionConfig, Credential, Dialect, Mode};
use query_noir::connect::{
    choose_tls, init_conn, ssl_mode_from, ConnectionPlan, MysqlPlan, SqlitePlan, SslMode, TlsPlan,
    CONNECT_TIMEOUT_SECS,
};
use query_noir::error::Error;
use query_noir::registry::{ConnectionRegistry, InitiatedConnection};

fn config(id: &str, dialect: Dialect, mode: Mode, creds: &[(&str, &str)]) -> ConnectionConfig {
    ConnectionConfig {
        id: id.to_string(),
        dialect,
        mode,
        credentials: creds.iter().map(|(k, v)| Credential::new(k, v)).collect(),
    }
}

fn postgres(creds: &[(&str, &str)]) -> ConnectionConfig {
    config("pg", Dialect::Postgresql, Mode::Network, creds)
}

#[test]
fn file_mode_is_rejected_for_network_dialects() {
    for dialect in [Dialect::Mysql, Dialect::Postgresql] {
        let cfg = config("c", dialect, Mode::File, &[("ssl_mode", "disable"), ("path", "/tmp/db")]);
        assert_eq!(init_conn(&cfg), Err(Error::UnsupportedModeForDialect));
    }
}

#[test]
fn file_mode_wins_over_tls_pairing() {
    let cfg = config(
        "c",
        Dialect::Postgresql,
        Mode::File,
        &[("ssl_mode", "prefer"), ("client_cert", "cert.pem")],
    );
    assert_eq!(init_conn(&cfg), Err(Error::UnsupportedModeForDialect));
}

#[test]
fn sqlite_needs_file_mode() {
    for mode in [Mode::Network, Mode::Socket] {
        let cfg = config("c", Dialect::Sqlite, mode, &[("path", "/tmp/db.sqlite")]);
        assert_eq!(init_conn(&cfg), Err(Error::UnsupportedModeForDialect));
    }
}

#[test]
fn sqlite_plan_uses_path_as_schema() {
    let cfg = config("c", Dialect::Sqlite, Mode::File, &[("path", "/tmp/db.sqlite")]);
    assert_eq!(
        init_conn(&cfg),
        Ok(ConnectionPlan::Sqlite(SqlitePlan {
            path: "/tmp/db.sqlite".to_string(),
            schema: "/tmp/db.sqlite".to_string(),
        }))
    );
}

#[test]
fn sqlite_without_path_plans_empty_path() {
    let cfg = config("c", Dialect::Sqlite, Mode::File, &[]);
    assert_eq!(
        init_conn(&cfg),
        Ok(ConnectionPlan::Sqlite(SqlitePlan { path: String::new(), schema: String::new() }))
    );
}

#[test]
fn mysql_plan_has_timeout_and_socket_preference() {
    assert_eq!(CONNECT_TIMEOUT_SECS, 15);
    let net = config("c", Dialect::Mysql, Mode::Network, &[("host", "localhost")]);
    assert_eq!(
        init_conn(&net),
        Ok(ConnectionPlan::Mysql(MysqlPlan { connect_timeout_secs: 15, prefer_socket: false }))
    );
    let sock = config("c", Dialect::Mysql, Mode::Socket, &[("socket", "/run/mysql.sock")]);
    assert_eq!(
        init_conn(&sock),
        Ok(ConnectionPlan::Mysql(MysqlPlan { connect_timeout_secs: 15, prefer_socket: true }))
    );
}

#[test]
fn client_cert_without_key_is_rejected() {
    let cfg = postgres(&[("ssl_mode", "require"), ("ca_cert", "ca.pem"), ("client_cert", "c.pem")]);
    assert_eq!(init_conn(&cfg), Err(Error::InvalidTlsConfiguration));
}

#[test]
fn client_key_without_cert_is_rejected() {
    let cfg = postgres(&[("ssl_mode", "disable"), ("client_key", "k.pem")]);
    assert_eq!(init_conn(&cfg), Err(Error::InvalidTlsConfiguration));
}

#[test]
fn empty_client_cert_counts_as_unset() {
    let cfg = postgres(&[("ssl_mode", "prefer"), ("client_cert", ""), ("client_key", "k.pem")]);
    assert_eq!(init_conn(&cfg), Err(Error::InvalidTlsConfiguration));
    let cfg = postgres(&[("ssl_mode", "prefer"), ("client_cert", ""), ("client_key", "")]);
    assert!(init_conn(&cfg).is_ok());
}

#[test]
fn tls_pairing_is_checked_before_other_credentials() {
    let cfg = postgres(&[("client_cert", "c.pem"), ("port", "not a port")]);
    assert_eq!(init_conn(&cfg), Err(Error::InvalidTlsConfiguration));
}

fn tls_of(cfg: &ConnectionConfig) -> (SslMode, TlsPlan) {
    match init_conn(cfg) {
        Ok(ConnectionPlan::Postgresql(p)) => (p.ssl_mode, p.tls),
        other => panic!("no PostgreSQL plan: {:?}", other),
    }
}

#[test]
fn full_identity_gives_verified_tls_with_client_certificate() {
    let cfg = postgres(&[
        ("ssl_mode", "require"),
        ("ca_cert", "ca.pem"),
        ("client_cert", "c.pem"),
        ("client_key", "k.pem"),
    ]);
    assert_eq!(
        tls_of(&cfg),
        (
            SslMode::Require,
            TlsPlan::VerifyPeerWithIdentity {
                ca_cert: "ca.pem".to_string(),
                client_cert: "c.pem".to_string(),
                client_key: "k.pem".to_string(),
            }
        )
    );
}

#[test]
fn ca_alone_gives_verified_tls() {
    let cfg = postgres(&[("ssl_mode", "prefer"), ("ca_cert", "ca.pem")]);
    assert_eq!(
        tls_of(&cfg),
        (SslMode::Prefer, TlsPlan::VerifyPeer { ca_cert: "ca.pem".to_string() })
    );
}

#[test]
fn tls_without_certificates_is_unverified() {
    let cfg = postgres(&[("ssl_mode", "prefer")]);
    assert_eq!(tls_of(&cfg), (SslMode::Prefer, TlsPlan::Unverified));
    let paired = postgres(&[("ssl_mode", "require"), ("client_cert", "c"), ("client_key", "k")]);
    assert_eq!(tls_of(&paired), (SslMode::Require, TlsPlan::Unverified));
}

#[test]
fn other_ssl_modes_disable_tls() {
    for text in ["disable", "", "PREFER", "verify-full"] {
        let cfg = postgres(&[("ssl_mode", text), ("ca_cert", "ca.pem")]);
        assert_eq!(tls_of(&cfg), (SslMode::Disable, TlsPlan::Plaintext));
    }
    assert_eq!(ssl_mode_from(&"prefer".to_string()), SslMode::Prefer);
    assert_eq!(ssl_mode_from(&"require".to_string()), SslMode::Require);
    assert_eq!(ssl_mode_from(&"required".to_string()), SslMode::Disable);
}

#[test]
fn choose_tls_follows_the_mode_first() {
    let s = |t: &str| t.to_string();
    assert_eq!(choose_tls(SslMode::Disable, s("ca"), s("c"), s("k")), TlsPlan::Plaintext);
    assert_eq!(choose_tls(SslMode::Prefer, s(""), s(""), s("")), TlsPlan::Unverified);
    assert_eq!(
        choose_tls(SslMode::Require, s("ca"), s(""), s("")),
        TlsPlan::VerifyPeer { ca_cert: s("ca") }
    );
}

#[test]
fn postgres_plan_carries_credentials() {
    let cfg = postgres(&[
        ("user", "alice"),
        ("password", "secret"),
        ("db_name", "shop"),
        ("host", "db.local"),
        ("port", "5432"),
        ("ssl_mode", "disable"),
    ]);
    match init_conn(&cfg) {
        Ok(ConnectionPlan::Postgresql(p)) => {
            assert_eq!(p.user, Some("alice".to_string()));
            assert_eq!(p.password, Some("secret".to_string()));
            assert_eq!(p.dbname, Some("shop".to_string()));
            assert_eq!(p.host, Some("db.local".to_string()));
            assert_eq!(p.port, Some(5432));
            assert_eq!(p.connect_timeout_secs, 15);
            assert_eq!(p.ssl_mode, SslMode::Disable);
            assert_eq!(p.tls, TlsPlan::Plaintext);
            assert_eq!(p.schema, "public");
        }
        other => panic!("no PostgreSQL plan: {:?}", other),
    }
}

#[test]
fn postgres_without_port_plans_none() {
    match init_conn(&postgres(&[("ssl_mode", "disable")])) {
        Ok(ConnectionPlan::Postgresql(p)) => {
            assert_eq!(p.port, None);
            assert_eq!(p.user, None);
        }
        other => panic!("no PostgreSQL plan: {:?}", other),
    }
}

#[test]
fn missing_ssl_mode_is_rejected() {
    assert_eq!(init_conn(&postgres(&[("host", "db.local")])), Err(Error::MissingSslMode));
}

#[test]
fn invalid_port_is_rejected() {
    for port in ["", "abc", "70000", "-1", "54 32"] {
        let cfg = postgres(&[("ssl_mode", "disable"), ("port", port)]);
        assert_eq!(init_conn(&cfg), Err(Error::InvalidPort));
    }
}

#[test]
fn first_credential_of_a_key_counts() {
    let cfg = postgres(&[("ssl_mode", "require"), ("ssl_mode", "disable")]);
    assert_eq!(cfg.get("ssl_mode"), Some("require".to_string()));
    assert_eq!(cfg.get("host"), None);
    assert_eq!(cfg.get_or_empty("host"), "");
    assert_eq!(tls_of(&cfg).0, SslMode::Require);
}

#[test]
fn dialect_names() {
    assert_eq!(Dialect::Mysql.name(), "mysql");
    assert_eq!(Dialect::Postgresql.name(), "postgresql");
    assert_eq!(Dialect::Sqlite.name(), "sqlite");
}

#[test]
fn duplicate_config_is_equal() {
    let cfg = postgres(&[("ssl_mode", "require"), ("host", "h")]);
    assert_eq!(cfg.duplicate(), cfg);
}

#[test]
fn error_messages() {
    assert_eq!(Error::ConnectionNotFound.message(), "Connection not found");
    assert_eq!(Error::QueryExpired.message(), "Query expired");
    assert_eq!(Error::NoStatements.message(), "No statements found");
    assert_eq!(
        Error::InvalidTlsConfiguration.message(),
        "client_cert and client_key must be set together"
    );
    assert_eq!(
        Error::Transaction("deadlock".to_string()).message(),
        "Transaction failed: deadlock"
    );
    assert_eq!(Error::PoolCreation("x".to_string()).message(), "Cannot create pool: x");
    assert_eq!(Error::PoolUsability("y".to_string()).message(), "Cannot use pool: y");
    assert_eq!(Error::QueryExecution("z".to_string()).message(), "Query failed: z");
    assert_eq!(Error::StatementParse("p".to_string()).message(), "Cannot parse statement: p");
    assert_eq!(Error::MissingSslMode.message(), "ssl_mode is required");
    assert_eq!(Error::InvalidPort.message(), "Port should be a valid number");
    assert_eq!(
        Error::UnsupportedModeForDialect.message(),
        "Mode is not supported for this dialect"
    );
}

fn entry(id: &str, pool: u32) -> InitiatedConnection<u32> {
    InitiatedConnection {
        config: config(id, Dialect::Sqlite, Mode::File, &[("path", id)]),
        pool,
        schema: id.to_string(),
    }
}

#[test]
fn registry_add_get_remove() {
    let mut reg: ConnectionRegistry<u32> = ConnectionRegistry::new();
    assert_eq!(reg.len(), 0);
    assert!(matches!(reg.get("a"), Err(Error::ConnectionNotFound)));
    assert_eq!(reg.add(entry("a", 1)), "a");
    assert_eq!(reg.add(entry("b", 2)), "b");
    assert_eq!(reg.len(), 2);
    assert_eq!(reg.get("a").map(|c| c.pool), Ok(1));
    assert_eq!(reg.get("b").map(|c| c.pool), Ok(2));
    assert_eq!(reg.remove("a").map(|c| c.pool), Some(1));
    assert!(matches!(reg.get("a"), Err(Error::ConnectionNotFound)));
    assert_eq!(reg.get("b").map(|c| c.pool), Ok(2));
    assert_eq!(reg.len(), 1);
}

#[test]
fn registry_remove_is_idempotent() {
    let mut reg: ConnectionRegistry<u32> = ConnectionRegistry::new();
    reg.add(entry("a", 1));
    assert!(reg.remove("a").is_some());
    assert!(reg.remove("a").is_none());
    assert!(reg.remove("never").is_none());
    assert_eq!(reg.len(), 0);
}

#[test]
fn registry_keeps_one_pool_per_id() {
    let mut reg: ConnectionRegistry<u32> = ConnectionRegistry::new();
    reg.add(entry("a", 1));
    reg.add(entry("b", 2));
    reg.add(entry("a", 3));
    assert_eq!(reg.len(), 2);
    assert_eq!(reg.get("a").map(|c| c.pool), Ok(3));
}

#[test]
fn registry_lists_configs_in_order() {
    let mut reg: ConnectionRegistry<u32> = ConnectionRegistry::new();
    reg.add(entry("a", 1));
    reg.add(entry("b", 2));
    let ids: Vec<String> = reg.list().into_iter().map(|c| c.id).collect();
    assert_eq!(ids, vec!["a".to_string(), "b".to_string()]);
}
