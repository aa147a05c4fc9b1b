[package]
name = "query_noir"
version = "0.1.0"
edition = "2021"
publish = false

[dependencies]
sqlparser = "*"
md5 = "*"
anyhow = "*"
serde = { version = "*", features = ["derive"] }
serde_json = "*"
tokio = { version = "*", features = ["sync", "rt", "fs"] }
futures = "*"
mysql = "*"
deadpool-postgres = "*"
deadpool-sqlite = "*"
postgres = "*"
openssl = "*"
postgres-openssl = "*"
