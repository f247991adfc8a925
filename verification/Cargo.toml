[package]
name = "gptsh"
version = "0.1.0"
edition = "2021"
publish = false

[dependencies]
anyhow = "*"
async-openai = { version = "=0.42.1", features = ["chat-completion"] }
clap = { version = "*", features = ["derive"] }
colored = "*"
crossterm = "*"
home = "*"
once_cell = "*"
rustyline = "*"
serde = { version = "*", features = ["derive"] }
serde_json = "=1.0.151"
shellwords = "=1.1.0"
termimad = "*"
tokio = { version = "*", features = ["rt-multi-thread", "macros"] }
toml = "*"
whoami = "*"
