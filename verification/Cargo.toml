[package]
name = "composite_crdt"
version = "0.1.0"
edition = "2021"
publish = false

[dependencies]
crdts = "7"
serde = { version = "1", features = ["derive"] }
bincode = "1"
thiserror = "1"
crdts_macro = "*"
