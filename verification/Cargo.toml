[package]
name = "cargo_v5"
version = "0.1.0"
edition = "2021"
publish = false

[dependencies]
cargo_metadata = "*"
cargo-subcommand-metadata = "*"
chrono = "*"
clap = { version = "*", features = ["derive"] }
flexi_logger = "*"
inquire = "*"
log = "*"
miette = "*"
thiserror = "*"
tokio = { version = "*", features = ["full"] }
vex-v5-serial = "*"
