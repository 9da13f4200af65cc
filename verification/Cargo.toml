[package]
name = "sunny"
version = "0.1.0"
edition = "2021"
publish = false

[dependencies]
dotenv = "0.15"
serenity = "0.10"
songbird = "0.2"
tokio = { version = "1", features = ["macros", "rt-multi-thread", "signal"] }
