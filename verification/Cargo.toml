[package]
name = "cartridge"
version = "0.1.0"
edition = "2021"
publish = false

[dependencies]
serde_json = "1"
anyhow = "1"
clap = { version = "4", features = ["derive"] }
cliclack = "*"
colored = "*"
dialoguer = "*"
reqwest = { version = "*", default-features = false }
tokio = { version = "1", features = ["macros", "rt-multi-thread"] }
tracing = "*"
tracing-log = "*"
tracing-subscriber = { version = "*", features = ["env-filter"] }
watchexec = "*"
