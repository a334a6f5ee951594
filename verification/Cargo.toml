[package]
name = "td3_spl_token"
version = "0.1.0"
edition = "2021"
publish = false

[dependencies]
anchor-lang = "0.31"
anchor-spl = { version = "0.31", features = ["metadata"] }
