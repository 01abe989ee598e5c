[package]
name = "oxycord"
version = "0.1.0"
edition = "2021"
publish = false

[dependencies]
serde = { version = "1", features = ["derive"] }
serde_json = "1"
tokio = { version = "1", features = ["rt", "sync"] }
reqwest = { version = "0.12", default-features = false, features = ["json"] }
directories-next = "2"
web-view = "0.7"
