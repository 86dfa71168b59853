[package]
name = "adt"
version = "0.1.0"
edition = "2021"
publish = false

[dependencies]
url = "=2.5.8"
clap = { version = "=4.6.7", features = ["derive"] }
log = "=0.4.34"
simple_logger = "=5.2.0"
anyhow = "=1.0.104"
thiserror = "=1.0.69"
crossterm = "=0.27.0"
ratatui = "=0.23.0"
tokio = { version = "1", features = ["rt-multi-thread", "macros"] }
arrow = "53"
datafusion = "43"
object_store = { version = "0.11", features = ["aws"] }
