[package]
name = "maestro"
version = "0.1.0"
edition = "2021"
publish = false

[dependencies]
anyhow = "=1.0.104"
id3 = "=1.17.2"
image = { version = "=0.23.14", default-features = false, features = ["jpeg", "png"] }
indicatif = "0.17"
once_cell = "=1.21.4"
serde = { version = "=1.0.229", features = ["derive"] }
serde_yaml = "=0.8.26"
structopt = "=0.3.26"
thiserror = "=1.0.69"
unicode-normalization = "=0.1.26"
walkdir = "=2.5.0"
yaml-rust = "=0.4.5"
