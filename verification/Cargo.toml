[package]
name = "transmission_tui"
version = "0.1.0"
edition = "2021"
publish = false

[dependencies]
chrono = "0.4"
clap = { version = "4", features = ["derive"] }
color-eyre = "0.6"
crossterm = { version = "0.28", features = ["event-stream"] }
futures = "0.3"
itertools = "0.13"
ratatui = "0.28"
strum = { version = "0.26", features = ["derive"] }
tokio = { version = "1", features = ["rt-multi-thread", "macros", "sync", "time"] }
transmission-rpc = "0.4"
tui-tree-widget = "0.22"
unicode-width = "0.1"
