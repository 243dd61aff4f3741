[package]
name = "touhou_tracker"
version = "0.1.0"
edition = "2021"
publish = false

[dependencies]
byteorder = "1"
time = "0.3"
anyhow = "1"
thiserror = "1"
serde = { version = "1", features = ["derive"] }
tokio = { version = "1", features = ["rt-multi-thread", "macros", "time", "signal", "sync"] }
sqlx = { version = "*", default-features = false, features = ["sqlite", "runtime-tokio"] }
