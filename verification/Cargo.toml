[package]
name = "formula_stream"
version = "0.1.0"
edition = "2021"
publish = false

[dependencies]
arithmetic-parser = "0.3"
bigdecimal = { version = "0.3", features = ["serde"] }
futures-util = "0.3"
log = "0.4"
serde = { version = "1", features = ["derive"] }
serde_json = "1"
thiserror = "1"
tokio = { version = "1", features = ["macros", "rt-multi-thread"] }
tokio-tungstenite = { version = "0.17", features = ["native-tls"] }
warp = "0.3"
