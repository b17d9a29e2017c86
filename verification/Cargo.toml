[package]
name = "word_quiz"
version = "0.1.0"
edition = "2021"
publish = false

[dependencies]
chrono = "=0.4.45"
futures = "=0.3.34"
rand = "=0.8.8"
telegram-bot = "=0.8.0"
tokio = { version = "0.2", features = ["macros", "rt-threaded"] }
