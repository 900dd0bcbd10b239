[package]
name = "audio_server"
version = "0.1.0"
edition = "2021"
publish = false

[dependencies]
clap = { version = "*", features = ["derive"] }
poem = "*"
poem-openapi = { version = "*", features = ["swagger-ui"] }
rodio = "*"
tokio = { version = "*", features = ["macros", "rt-multi-thread"] }
tracing-subscriber = "*"
