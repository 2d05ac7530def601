[package]
name = "ruuvi_mqtt"
version = "0.1.0"
edition = "2021"
publish = false

[dependencies]
bluer = { version = "*", features = ["bluetoothd", "serde"] }
futures-util = "0.3"
hex = "0.4"
rumqttc = "*"
serde = { version = "1", features = ["derive"] }
serde_json = "1"
tokio = { version = "1", features = ["macros", "rt-multi-thread", "time"] }
toml = "*"
