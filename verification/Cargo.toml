[package]
name = "rgbldk"
version = "0.1.0"
edition = "2021"
publish = false

[dependencies]
serde_json = "1"
owo-colors = "4"
serde = { version = "1", features = ["derive"] }
clap = { version = "4", features = ["derive"] }
reqwest = { version = "0.12", default-features = false, features = ["json"] }
tokio = { version = "1", features = ["macros", "rt-multi-thread", "time"] }
toml = "0.8"
comfy-table = "7"
supports-color = "3"
