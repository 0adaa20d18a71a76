[package]
name = "tbo"
version = "0.1.0"
edition = "2021"
publish = false

[dependencies]
url = "2"
serenity = { version = "0.10", features = ["voice"] }
songbird = { version = "0.2", features = ["builtin-queue"] }
tracing = "0.1"
