[package]
name = "sql_lineage"
version = "0.1.0"
edition = "2021"
publish = false

[dependencies]
sqlparser = "0.43"
clap = { version = "4", features = ["derive"] }
csv = "1"
serde = { version = "1", features = ["derive"] }
