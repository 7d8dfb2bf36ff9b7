[package]
name = "reoserv"
version = "0.1.0"
edition = "2021"
publish = false

[dependencies]
eolib = "*"
eoplus = "=1.0.0-RC1"
rand = "*"
chrono = "*"
tokio = { version = "*", features = ["sync", "time", "rt", "macros"] }
config = "*"
serde = { version = "*", features = ["derive"] }
bytes = "*"
mysql_async = "*"
mysql_common = "*"
anyhow = "*"
tracing = "*"
