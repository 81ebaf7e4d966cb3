[package]
name = "busylib"
version = "0.1.0"
edition = "2021"
publish = false

[dependencies]
magic-crypt = "*"
arc-swap = "*"
chrono = "*"
log = "*"
once_cell = "*"
reqwest = { version = "*", default-features = false }
time = { version = "*", features = ["formatting"] }
tokio = { version = "*", features = ["rt", "time"] }
tokio-cron-scheduler = "*"
tracing-appender = "*"
tracing-subscriber = { version = "*", features = ["json", "time"] }
