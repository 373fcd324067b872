[package]
name = "homebruh"
version = "0.1.0"
edition = "2021"
publish = false

[dependencies]
sha2 = "*"
toml = "*"
reqwest = { version = "*", default-features = false, features = ["blocking", "rustls-tls"] }
flate2 = "*"
tar = "*"
directories = "*"
