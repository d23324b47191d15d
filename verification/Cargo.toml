[package]
name = "rustxt"
version = "0.1.0"
edition = "2021"
publish = false

[dependencies]
async-openai = "0.28"
async_zip = { version = "0.0.17", features = ["tokio", "deflate", "bzip2"] }
cap-std = "3"
clap = { version = "4", features = ["derive"] }
eyre = "0.6"
futures-util = "0.3"
reqwest = { version = "0.12", default-features = false, features = ["rustls-tls", "stream"] }
tempfile = "3"
thiserror = "2"
tokio = { version = "1", features = ["macros", "rt-multi-thread", "fs", "io-util", "time"] }
tokio-util = { version = "0.7", features = ["compat"] }
