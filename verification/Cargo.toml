[package]
name = "loam_build"
version = "0.1.0"
edition = "2021"
publish = false

[dependencies]
clap = { version = "4", features = ["derive"] }
serde = { version = "1", features = ["derive"] }
toml = "0.8"
thiserror = "1"
proc-macro2 = "1"
quote = "1"
syn = { version = "2", features = ["full"] }
