[package]
name = "intersystems_ls"
version = "0.1.0"
edition = "2021"
publish = false

[dependencies]
lsp-types = "0.94"
once_cell = "1"
serde = { version = "1", features = ["derive"] }
serde_repr = "0.1"
futures = "0.3"
log = "0.4"
async-trait = "0.1"
