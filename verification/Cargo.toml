[package]
name = "netscape_bookmark"
version = "0.1.0"
edition = "2021"
publish = false

[dependencies]
kuchiki = "*"
serde = { version = "*", features = ["derive"] }
serde_json = "*"
