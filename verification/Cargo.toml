[package]
name = "blockbreaker"
version = "0.1.0"
edition = "2021"
publish = false

[dependencies]
oorandom = "=11.1.5"
getrandom = "=0.2.17"
ggez = { version = "0.6", default-features = false }
reqwest = { version = "=0.11.27", default-features = false, features = ["blocking", "json"] }
