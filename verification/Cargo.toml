[package]
name = "homieflow"
version = "0.1.0"
edition = "2021"
publish = false

[dependencies]
hex = "*"
homie-controller = "*"
rumqttc = "*"
tokio = { version = "*", features = ["full"] }
serde = { version = "*", features = ["derive"] }
serde_json = "*"
toml = "*"
tracing = "*"
tracing-subscriber = "*"
uuid = { version = "*", features = ["v4", "serde"] }
xdg = "*"
regex = "*"
rand = "*"
axum = "*"
google-smart-home = "*"
jsonwebtoken = "*"
rustls = "*"
rustls-native-certs = "*"
