[package]
name = "risc_bot"
version = "0.1.0"
edition = "2021"
publish = false

[dependencies]
htmlescape = "0.3"
humantime = "2"
urlencoding = "2"
regex = "1"
tokio = { version = "1", features = ["full"] }
tokio-stream = { version = "0.1", features = ["io-util", "time"] }
futures = "0.3"
telegram-bot = "*"
failure = "0.1"
async-trait = "0.1"
lazy_static = "1"
dotenv = "0.15"
