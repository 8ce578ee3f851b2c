[package]
name = "atomdesk"
version = "0.1.0"
edition = "2021"
publish = false

[dependencies]
git2 = { version = "=0.21.0", default-features = false }
url = "=2.5.8"
dirs = "=7.0.0"
keyring = "=2.3.3"
chrono = "=0.4.45"
uuid = { version = "=1.27.0", features = ["v4"] }
