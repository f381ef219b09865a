[package]
name = "demoplayer"
version = "0.1.0"
edition = "2021"
publish = false

[dependencies]
tf-demo-parser = "=0.7.1"
itertools = "=0.15.0"
bitbuffer = "=0.11.3"
anyhow = "=1.0.104"
async-std = "=1.13.2"
bitcode = { version = "=0.6.9", features = ["serde"] }
chrono = "=0.4.45"
glob = "=0.3.4"
log = "=0.4.34"
rand = "=0.8.8"
rcon = { version = "=0.6.0", features = ["rt-tokio"] }
regex-macro = "=0.3.0"
serde = { version = "=1.0.229", features = ["derive"] }
serde_json = "=1.0.154"
simplelog = "=0.12.2"
tokio = { version = "=1.54.1", features = ["net"] }
trash = "=5.2.9"
