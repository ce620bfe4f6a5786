[package]
name = "openharmony_ability"
version = "0.1.0"
edition = "2021"
publish = false

[dependencies]
serde = { version = "=1.0.229", features = ["derive"] }
serde_json = "=1.0.154"
crossbeam-channel = "=0.5.17"
ohos-window-manager-binding = { version = "=0.1.2", features = ["api-22"] }
ohos-web-binding = "=0.3.1"
