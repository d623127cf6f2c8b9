[package]
name = "sql_merge"
version = "0.1.0"
edition = "2021"
publish = false

[dependencies]
alphanumeric-sort = "*"
chrono = "*"
clap = { version = "*", features = ["derive"] }
