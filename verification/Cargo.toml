[package]
name = "ferio-linux-helper"
version = "0.1.0"
edition = "2021"
publish = false

[dependencies]
clap = { version = "4", features = ["derive"] }
crossterm = "0.28"
nix = { version = "0.29", features = ["user"] }
ratatui = "0.28"
sysinfo = "0.30"
