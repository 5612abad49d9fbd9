[package]
name = "vmm_memory"
version = "0.1.0"
edition = "2021"
publish = false

[dependencies]
displaydoc = "0.2"
serde = { version = "1", features = ["derive"] }
thiserror = "1"
