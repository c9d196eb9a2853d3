[package]
name = "coriolis"
version = "0.1.0"
edition = "2021"
publish = false

[dependencies]
anyhow = "1"
arboard = "3"
clap = { version = "4", features = ["derive"] }
crossterm = "0.28"
netcdf = "0.10"
ratatui = "0.29"
thiserror = "1"
tracing = "0.1"
tracing-subscriber = "0.3"
