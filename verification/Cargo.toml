[package]
name = "supervised_run"
version = "0.1.0"
edition = "2021"
publish = false

[dependencies]
anyhow = "1"
clap = { version = "4", features = ["derive"] }
fs-err = "*"
log = "0.4"
xshell = "*"
