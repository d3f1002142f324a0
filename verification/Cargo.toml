[package]
name = "cargo-docserve"
version = "0.1.0"
edition = "2021"
publish = false

[dependencies]
cargo = "0.60"
clap-verbosity-flag = "=0.2.0"
failure = "=0.1.8"
futures = "=0.1.31"
http = "=0.1.21"
hyper = "=0.12.36"
log = "0.4"
mime_guess = "=2.0.5"
notify = "=4.0.18"
pretty_env_logger = "=0.2.5"
structopt = "=0.2.18"
tokio = "=0.1.22"
