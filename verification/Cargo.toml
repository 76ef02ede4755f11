[package]
name = "murmur"
version = "0.1.0"
edition = "2021"
publish = false

[dependencies]
anyhow = "1"
async-openai = "*"
cpal = "0.15"
ctrlc = "3"
tempfile = "3"
tokio = { version = "1", features = ["rt-multi-thread", "macros"] }

[dev-dependencies]
hound = "3"
