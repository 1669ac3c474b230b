[package]
name = "ezer_cli"
version = "0.1.3"
edition = "2021"
publish = false

[dependencies]
base64 = "=0.22.1"
chrono = "=0.4.45"
serde_json = "=1.0.154"
toml = "=0.8.23"
clap = { version = "=4.6.7", features = ["derive"] }
console = "=0.15.11"
indicatif = "=0.17.11"
reqwest = { version = "=0.12.28", features = ["blocking", "cookies"] }
rpassword = "=7.5.4"
tokio = { version = "=1.54.1", features = ["rt-multi-thread"] }
tokio-tungstenite = "=0.24.0"
futures-util = "=0.3.34"
tiny_http = "=0.12.0"
notify = "=6.1.1"
webbrowser = "=1.2.6"
