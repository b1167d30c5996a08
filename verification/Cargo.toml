[package]
name = "nana"
version = "0.1.0"
edition = "2021"
publish = false

[dependencies]
cargo_toml = "0.20"
toml = "0.8"
git2 = "0.19"
clap = { version = "4.5", features = ["derive"] }
cliclack = "0.3"
console = "0.15"
thiserror = "1"
