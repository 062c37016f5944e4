[package]
name = "vreader"
version = "0.1.0"
edition = "2021"
publish = false

[dependencies]
fuzzt = "*"
clap = { version = "4", features = ["derive", "env"] }
serde = { version = "1", features = ["derive"] }
serde_json = "1"
toml = "*"
reqwest = { version = "*", default-features = false, features = ["blocking", "json"] }
etcetera = "*"
nkeys = "*"
async-nats = "*"
tokio = { version = "1", features = ["rt-multi-thread", "macros"] }
color-eyre = "*"
tracing = "*"
which = "*"
open = "*"
chrono = "*"
unicode-width = "*"
ratatui = "*"
crossterm = "*"
