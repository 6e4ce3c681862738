[package]
name = "ledger_demo_rs"
version = "0.1.0"
edition = "2021"
publish = false

[dependencies]
rust_decimal = "1"
dashmap = "6"
crossbeam = "0.8"
parking_lot = "0.12"
serde = { version = "1", features = ["derive"] }
csv = "1"
clap = { version = "4", features = ["derive"] }
thiserror = "2"
