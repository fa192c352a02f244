[package]
name = "simple_mqtt"
version = "0.1.0"
edition = "2021"
publish = false

[dependencies]
rumqttc = "*"

[dev-dependencies]
tokio = { version = "*", features = ["rt"] }
