[package]
name = "kitchensink_testing"
version = "0.1.0"
edition = "2021"
publish = false

[dependencies]
loom = "0.7"
serde = { version = "1", features = ["derive"] }
serde_json = "1"
clap = { version = "4", features = ["derive"] }
anyhow = "1"
thiserror = "1"
ctrlc = "3"
