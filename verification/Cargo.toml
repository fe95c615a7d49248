[package]
name = "automower2mqtt"
version = "0.1.0"
edition = "2021"
publish = false

[dependencies]
homie5 = "=0.8.2"
jiff = "=0.2.39"
serde = { version = "=1.0.229", features = ["derive"] }
serde_json = "=1.0.154"
rumqttc = { version = "=0.25.1", features = ["url"] }
reqwest = { version = "=0.12.28", default-features = false, features = ["json", "rustls-tls"] }
tokio = { version = "=1.54.1", features = ["rt", "macros", "sync", "time"] }
tokio-tungstenite = { version = "=0.30.0", features = ["rustls-tls-webpki-roots"] }
futures = "=0.3.34"
clap = { version = "=4.6.7", features = ["derive", "env"] }
boot-time = "=0.1.3"
thiserror = "=2.0.21"
tracing = "=0.1.44"
tracing-subscriber = "=0.3.23"
