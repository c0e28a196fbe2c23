[package]
name = "pcap_viewer"
version = "0.1.0"
edition = "2021"
publish = false

[dependencies]
anyhow = "*"
chrono = "*"
clap = { version = "*", features = ["derive"] }
colored = "*"
crossterm = "*"
thiserror = "*"
tracing-subscriber = { version = "*", features = ["env-filter"] }
