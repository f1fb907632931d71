[package]
name = "cargo_bounds"
version = "0.1.0"
edition = "2021"
publish = false

[dependencies]
anyhow = "1"
clap = { version = "4", features = ["derive"] }
crates_io_api = "*"
ctrlc = "3"
indicatif = "*"
owo-colors = "*"
semver = "1"
toml_edit = "*"
