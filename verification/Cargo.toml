[package]
name = "vm_onoff"
version = "0.1.0"
edition = "2021"
publish = false

[dependencies]
anyhow = "*"
async-trait = "*"
reqwest = { version = "*", default-features = false, features = ["json"] }
serde = { version = "*", features = ["derive"] }
serde_json = "*"
serde_urlencoded = "*"
thiserror = "*"
tokio = { version = "*", features = ["rt-multi-thread", "macros", "sync"] }
