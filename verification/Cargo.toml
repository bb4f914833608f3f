[package]
name = "modality-barectf-plugin"
version = "0.1.0"
edition = "2021"
publish = false

[dependencies]
anyhow = "=1.0.104"
auxon-sdk = { version = "=2.3.0", features = ["modality"] }
barectf-parser = "=0.3.0"
clap = { version = "=4.6.7", features = ["derive", "env", "color"] }
clap-num = "=1.2.0"
fxhash = "=0.2.1"
goblin = "=0.8.2"
humantime = "=2.4.0"
internment = "=0.8.6"
serde = { version = "=1.0.229", features = ["derive"] }
serde_json = "=1.0.154"
serde_yaml = "=0.9.34"
tokio = { version = "=1.54.1", features = ["macros", "rt-multi-thread", "io-util", "net", "fs", "signal", "time"] }
tokio-stream = "=0.1.19"
tokio-util = { version = "=0.7.20", features = ["codec"] }
tracing = "=0.1.44"
tracing-subscriber = { version = "=0.3.23", features = ["env-filter", "fmt"] }
url = "=2.5.2"
