[package]
name = "opsctl"
version = "0.1.0"
edition = "2021"
publish = false

[dependencies]
clap = { version = "=4.6.7", features = ["derive"] }
clap_complete = "=4.6.11"
dirs = "=7.0.0"
hostname = "=0.4.2"
opsd = "=0.2.2"
reqwest = { version = "=0.12.28", features = ["json"] }
serde = { version = "=1.0.229", features = ["derive"] }
serde_json = "=1.0.154"
thiserror = "=2.0.21"
tokio = { version = "=1.54.1", features = ["macros", "rt-multi-thread", "time"] }
url = { version = "=2.5.8", features = ["serde"] }
webbrowser = "=1.2.6"
