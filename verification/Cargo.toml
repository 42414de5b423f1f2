[package]
name = "aurr-manager"
version = "0.1.0"
edition = "2021"
publish = false

[dependencies]
uuid = { version = "=1.29.0", features = ["v4"] }
serde = { version = "=1.0.229", features = ["derive"] }
serde_json = "=1.0.154"
config = "=0.14.1"
clap = { version = "=4.6.7", features = ["derive", "env"] }
tokio = { version = "=1.54.1", features = ["macros", "rt-multi-thread"] }
futures = "=0.3.34"
colored = "=2.2.0"
crossterm = "=0.28.1"
chrono = "=0.4.45"
once_cell = "=1.21.4"
tracing = "=0.1.44"
tracing-subscriber = "=0.3.23"
hex = "=0.4.3"
async-recursion = "=1.2.0"
reqwest = { version = "=0.12.28", default-features = false, features = ["rustls-tls"] }
azure_core = { version = "=0.21.0", default-features = false, features = ["enable_reqwest_rustls"] }
azure_storage = { version = "=0.21.0", default-features = false, features = ["enable_reqwest_rustls"] }
azure_storage_blobs = { version = "=0.21.0", default-features = false, features = ["enable_reqwest_rustls"] }
time = "=0.3.55"
