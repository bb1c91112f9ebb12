[package]
name = "grite"
version = "0.1.0"
edition = "2021"
publish = false

[dependencies]
hex = "0.4"
regex = "1"
glob = "0.3"
sha2 = "0.10"
chrono = "0.4"
rand = "0.8"
hdrhistogram = "7"
clap = { version = "4", features = ["derive"] }
serde = { version = "1", features = ["derive"] }
serde_json = "1"
tokio = { version = "1", features = ["rt-multi-thread", "macros", "signal", "net", "sync", "time"] }
uuid = { version = "1", features = ["v4"] }
tracing = "0.1"
tracing-subscriber = { version = "0.3", features = ["env-filter"] }
ratatui = "0.29"
crossterm = "0.28"
comfy-table = "7"
libc = "0.2"
git2 = { version = "0.19", default-features = false }
