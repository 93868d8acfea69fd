[package]
name = "scarb_project_model"
version = "0.1.0"
edition = "2021"
publish = false

[dependencies]
anyhow = "1"
cairo-lang-filesystem = "~2.6"
cairo-lang-utils = "~2.6"
salsa = "0.16"
scarb-metadata = "1"
serde_json = "1"
tracing = "0.1"
