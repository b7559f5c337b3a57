[package]
name = "dev-purge"
version = "0.1.0"
edition = "2021"
publish = false

[dependencies]
anyhow = "1"
bollard = "0.17"
clap = { version = "4", features = ["derive"] }
colored = "2"
rayon = "1"
tokio = { version = "1", features = ["rt-multi-thread"] }
trash = "5"
walkdir = "2"
