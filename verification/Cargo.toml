[package]
name = "voicebot"
version = "0.1.0"
edition = "2021"
publish = false

[dependencies]
serenity = { version = "0.10", features = ["cache", "standard_framework", "voice"] }
songbird = { version = "0.2", features = ["builtin-queue"] }
tracing = "0.1"
