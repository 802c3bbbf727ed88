[package]
name = "yadb"
version = "0.1.0"
edition = "2021"
publish = false

[dependencies]
url = "2"
ureq = "3"
clap = { version = "4", features = ["derive"] }
console = "*"
indicatif = "*"
chrono = "0.4"
anyhow = "1"
thiserror = "*"
ratatui = "0.29"
crossterm = "0.28"
tui-input = { version = "*", default-features = false }
color-eyre = "0.6"
flexi_logger = "*"
log = "0.4"
