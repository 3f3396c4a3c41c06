[package]
name = "lcu_supervisor"
version = "0.1.0"
edition = "2021"
publish = false

[dependencies]
futures-util = "0.3"
machineid-rs = "1"
open = "5"
reqwest = { version = "0.11", features = ["json"] }
serde = { version = "1", features = ["derive"] }
serde_json = "1"
shaco = "*"
tokio = { version = "1", features = ["fs", "sync", "time"] }
urlencoding = "2"
