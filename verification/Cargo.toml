[package]
name = "hangman"
version = "0.1.0"
edition = "2021"
publish = false

[dependencies]
colored = "2"
reqwest = "0.12"
tokio = { version = "1", features = ["macros", "rt-multi-thread"] }
