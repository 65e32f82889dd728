[package]
name = "agcod"
version = "0.1.0"
edition = "2021"
publish = false

[dependencies]
sha2 = "*"
hmac = "*"
hex = "*"
uuid = { version = "*", features = ["v4"] }
chrono = "*"
serde_json = "*"
async-trait = "*"

[dependencies.reqwest]
version = "*"
default-features = false
features = ["blocking"]
