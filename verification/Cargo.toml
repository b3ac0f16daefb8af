[package]
name = "copostr"
version = "0.1.0"
edition = "2021"
publish = false

[dependencies]
bytes = "=1.12.1"
clap = { version = "=4.6.7", features = ["derive"] }
dotenv = "=0.15.0"
eggbug = "=0.1.3"
env_logger = "=0.11.11"
log = "=0.4.34"
reqwest = "=0.11.27"
rusqlite = "=0.40.2"
tokio = { version = "=1.54.1", features = ["macros", "rt-multi-thread"] }
