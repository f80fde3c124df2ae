[package]
name = "objstore"
version = "0.1.0"
edition = "2021"
publish = false

[dependencies]
chrono = "0.4"
dirs = "4"
hashicorp_vault = "2"
rand = "0.7"
rusoto_core = { version = "0.48", default-features = false, features = ["rustls"] }
rusoto_credential = "0.48"
rusoto_s3 = { version = "0.48", default-features = false, features = ["rustls"] }
serde = { version = "1", features = ["derive"] }
time = "0.3"
tokio = { version = "1", features = ["rt", "fs", "io-util"] }
tracing = "0.1"
tracing-subscriber = { version = "0.3", features = ["json"] }
