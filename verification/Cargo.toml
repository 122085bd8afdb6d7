[package]
name = "c-at-e-file-server"
version = "0.1.0"
edition = "2021"
publish = false

[dependencies]
httpdate = "1"
http-range = "0.1"
fastly = "0.8"
http = "0.2"
serde = { version = "1", features = ["derive"] }
serde_derive = "1"
serde_json = "1"
clap = "4"
fastly-api = "*"
futures = "0.3"
indicatif = "0.17"
percent-encoding = "2"
reqwest = { version = "0.11", features = ["json", "stream"] }
simple-error = "0.2"
tokio = { version = "1", features = ["full"] }
walkdir = "2"
