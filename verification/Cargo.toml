[package]
name = "carrot"
version = "0.1.0"
edition = "2021"
publish = false

[dependencies]
chrono = { version = "0.4", default-features = false, features = ["std"] }
serde_json = "1"
dirs = "*"
env_logger = "*"
futures = "*"
log = "0.4"
rusoto_cloudtrail = { version = "*", default-features = false, features = ["rustls"] }
rusoto_core = { version = "*", default-features = false, features = ["rustls"] }
rusoto_ec2 = { version = "*", default-features = false, features = ["rustls"] }
tokio = { version = "1", features = ["rt-multi-thread", "sync", "time"] }
