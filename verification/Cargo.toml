[package]
name = "autobright"
version = "0.1.0"
edition = "2021"
publish = false

[dependencies]
gtk = "0.18"
serde = "1"
serde_derive = "1"
tokio = { version = "1", features = ["full"] }
toml = "0.8"
tray-item = { version = "0.10", features = ["libappindicator"] }
zbus = "3"
