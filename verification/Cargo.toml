[package]
name = "tokentask"
version = "0.1.0"
edition = "2021"
publish = false

[dependencies]
bon = "3"
oauth2 = { version = "5", features = ["reqwest-blocking"] }
parking_lot = "0.12"
tracing = "0.1"
