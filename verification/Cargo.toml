[package]
name = "trek_rs"
version = "0.1.0"
edition = "2021"
publish = false

[dependencies]
lol_html = "*"
regex = "*"
serde_json = "*"
html-escape = "*"
url = "*"
serde = { version = "*", features = ["derive"] }
eyre = "*"
thiserror = "*"
tracing = "*"
tracing-subscriber = { version = "*", features = ["env-filter"] }
