[package]
name = "nano_url"
version = "0.1.0"
edition = "2021"
publish = false

[dependencies]
fastrand = "=2.3.0"
serde = { version = "1", features = ["derive"] }
thiserror = "2"
dioxus = { version = "0.7", default-features = false, features = ["macro", "html", "signals", "hooks", "launch", "document", "asset", "router", "fullstack", "server"] }
