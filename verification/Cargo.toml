[package]
name = "servercore"
version = "0.1.0"
edition = "2021"
publish = false

[dependencies]
regex = "=1.13.1"
serde = { version = "=1.0.229", features = ["derive"] }
serde_json = "=1.0.154"
toml_edit = "=0.25.17"
zip = { version = "=9.2.2", default-features = false, features = ["deflate"] }
flate2 = "=1.1.10"
tar = "=0.4.46"
uuid = { version = "=1.29.0", features = ["v4"] }
tokio = { version = "=1.54.1", features = ["rt", "time", "net"] }
rcon = { version = "=0.6.0", features = ["rt-tokio"] }
