[package]
name = "iasql"
version = "0.1.0"
edition = "2021"
publish = false

[dependencies]
serde_json = "1"
serde_ini = "0.2"
serde = { version = "1", features = ["derive"] }
hyper = { version = "0.14", features = ["full"] }
hyper-tls = "0.5"
tokio = { version = "1", features = ["full"] }
clap = "2"
dialoguer = "0.10"
webbrowser = "0.8"
ascii_table = "4"
indicatif = "0.17"
futures = "0.3"
once_cell = "1"
