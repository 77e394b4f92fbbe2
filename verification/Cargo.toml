[package]
name = "iris"
version = "0.1.0"
edition = "2021"
publish = false

[dependencies]
anyhow = "1"
clap = { version = "4", features = ["derive"] }
colored = "*"
dirs = "*"
rayon = "1"
serde_json = "1"
similar = "2"
tera = "1"
toml_edit = "*"
which = "*"

[dev-dependencies]
tempdir = "0.3"
