[package]
name = "valeriyya"
version = "0.1.0"
edition = "2021"
publish = false

[dependencies]
regex = "1"
poise = "0.6"
serenity = "0.12"
mongodb = "2"
bson = "2"
serde = { version = "1", features = ["derive"] }
tokio = { version = "1", features = ["macros", "rt-multi-thread", "time"] }
reqwest = "0.11"
tracing = "0.1"
tracing-subscriber = "0.3"
once_cell = "1"
