[package]
name = "fcc_reporting"
version = "0.1.0"
edition = "2021"
publish = false

[dependencies]
fuzzywuzzy = "*"
csv = "*"
encoding_rs = "*"
serde = { version = "*", features = ["derive"] }
serde_json = "*"
chrono = "*"
uuid = { version = "*", features = ["v4"] }
reqwest = { version = "*", default-features = false, features = ["blocking", "json"] }
log = "*"
env_logger = "*"
dotenvy = "*"
glob = "*"
