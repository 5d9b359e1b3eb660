[package]
name = "rusty_bot"
version = "0.1.0"
edition = "2021"
publish = false

[dependencies]
anyhow = "=1.0.104"
base64 = "=0.21.7"
dotenv = "=0.15.0"
fast_qr = { version = "=0.14.0", features = ["image"] }
hex = "=0.4.3"
levenshtein = "=1.0.5"
rand = "=0.8.8"
reqwest = { version = "=0.11.27", features = ["json"] }
serenity = { version = "=0.11.7", features = ["collector"] }
tokio = { version = "=1.54.1", features = ["macros", "rt-multi-thread", "time"] }
tracing = "=0.1.44"
tracing-subscriber = { version = "=0.3.23", features = ["env-filter"] }
