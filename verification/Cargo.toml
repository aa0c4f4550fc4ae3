[package]
name = "lineage_server"
version = "0.1.0"
edition = "2021"
publish = false

[dependencies]
rust-crypto = "0.2.36"
rand = "0.8"
tokio = { version = "1", features = ["full"] }
futures = "0.3"
log = "0.4"
simple_logger = "4"
chrono = "0.4"
serde = { version = "1", features = ["derive"] }
toml = "0.8"
configparser = "3"
mysql = { version = "25", default-features = false, features = ["minimal"] }
mysql_async = { version = "0.34", default-features = false, features = ["minimal"] }
