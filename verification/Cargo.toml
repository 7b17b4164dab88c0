[package]
name = "zsh_bot"
version = "0.1.0"
edition = "2021"
publish = false

[dependencies]
shell-words = "1"
structopt = "0.3"
serde = { version = "1", features = ["derive"] }
toml = "0.5"
tokio = { version = "1", features = ["macros", "rt-multi-thread"] }
serenity = "0.10"
