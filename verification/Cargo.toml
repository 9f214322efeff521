[package]
name = "loggify"
version = "0.1.0"
edition = "2021"
publish = false

[dependencies]
log = "*"
chrono = "*"
chalk_rs = "*"
rusoto_core = { version = "*", default-features = false, features = ["rustls"] }
rusoto_logs = { version = "*", default-features = false, features = ["rustls"] }
tokio = { version = "*", features = ["rt"] }
