[package]
name = "showmarket"
version = "0.1.0"
edition = "2021"
publish = false

[dependencies]
anyhow = "1"
axum = { version = "*", features = ["ws"] }
chrono = "0.4"
futures-util = "0.3"
reqwest = { version = "*", features = ["json"] }
serde = { version = "1", features = ["derive"] }
serde_json = "1"
tokio = { version = "1", features = ["full"] }
tokio-tungstenite = { version = "*", features = ["native-tls"] }
tower-http = { version = "*", features = ["fs"] }
tracing = "0.1"
tracing-subscriber = { version = "0.3", features = ["env-filter"] }
yew = { version = "*", features = ["ssr"] }
