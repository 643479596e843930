[package]
name = "todor"
version = "0.1.0"
edition = "2021"
publish = false

[dependencies]
chrono = "*"
colored = "*"
date_time_parser = "*"
termion = "*"
serde = { version = "*", features = ["derive"] }
serde_json = "*"
toml = "*"
restson = "*"
google-calendar3 = "*"
yup-oauth2 = "*"
hyper = "*"
hyper-rustls = "*"
tokio = { version = "*", features = ["rt-multi-thread", "macros"] }
