[package]
name = "tasks"
version = "0.1.0"
edition = "2021"
publish = false

[dependencies]
anyhow = "*"
chrono = "*"
clap = { version = "*", features = ["derive"] }
dirs = "*"
itertools = "*"
sqlx = { version = "*", features = ["runtime-tokio", "sqlite", "chrono"], default-features = false }
tokio = { version = "*", features = ["rt", "macros"], default-features = false }
