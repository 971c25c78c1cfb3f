[package]
name = "paste_watch"
version = "0.1.0"
edition = "2021"
publish = false

[dependencies]
anyhow = "1"
notify = "*"
thirtyfour = "*"
tokio = { version = "1", features = ["full"] }
