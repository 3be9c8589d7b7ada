[package]
name = "fit_rust"
version = "0.1.0"
edition = "2021"
publish = false

[dependencies]
binrw = "0.13"
copyless = "0.1"
dotenv = "0.15"
time = { version = "0.3", features = ["macros"] }
tracing = "0.1"
tracing-subscriber = { version = "0.3", features = ["env-filter", "time", "local-time"] }
