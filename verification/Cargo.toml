[package]
name = "fanout"
version = "0.1.0"
edition = "2021"
publish = false

[dependencies]
rocket = "*"
clap = { version = "*", features = ["derive"] }
cargo_metadata = "*"
duct = "*"
copy_dir = "*"
