[package]
name = "hmm-rs"
version = "0.1.0"
edition = "2021"
publish = false

[dependencies]
anyhow = "1"
bstr = "1"
clap = { version = "4", features = ["derive"] }
console = "*"
futures-util = "0.3"
gix = { version = "*", features = ["blocking-network-client", "blocking-http-transport-reqwest"] }
human_bytes = "*"
indicatif = "*"
reqwest = { version = "*", features = ["stream", "blocking"] }
serde = { version = "1", features = ["derive"] }
serde_json = "1"
tokio = { version = "1", features = ["rt-multi-thread", "macros"] }
urlencoding = "2"
yansi = "1"
zip = { version = "*", default-features = false, features = ["deflate"] }
