[package]
name = "jvmram_bridge"
version = "0.1.0"
edition = "2021"
publish = false

[dependencies]
bytes = "=1.12.1"
libc = "=0.2.191"
serde = { version = "=1.0.229", features = ["derive"] }
tauri = { version = "=2.12.5", default-features = false }
thiserror = "=2.0.21"
tokio = { version = "=1.54.1", features = ["rt-multi-thread", "signal", "sync"] }
tonic = { version = "=0.14.6", default-features = false, features = ["channel", "codegen"] }
