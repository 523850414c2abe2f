[package]
name = "tensorman"
version = "0.1.0"
edition = "2021"
publish = false

[dependencies]
anyhow = "1"
bollard = "*"
clap = "2"
nix = { version = "*", features = ["user"] }
serde = { version = "1", features = ["derive"] }
tabular = "*"
thiserror = "1"
tokio = { version = "1", features = ["rt"] }
toml = "*"
xdg = "2"
