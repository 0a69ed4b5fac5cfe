[package]
name = "sharextended"
version = "0.1.0"
edition = "2021"
publish = false

[dependencies]
serde_json = "1"
chrono = "0.4"
clap = { version = "4", features = ["derive"] }
dialoguer = "0.11"
directories = "5"
eyre = "0.6"
indicatif = "0.17"
open = "5"
reqwest = { version = "0.12", default-features = false }
tokio = { version = "1", features = ["macros", "rt-multi-thread"] }
futures = "0.3"
tinyfiledialogs = "3"
ansi_term = "0.12"
