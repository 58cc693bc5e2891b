[package]
name = "dw1000"
version = "0.1.0"
edition = "2021"
publish = false

[dependencies]
ieee802154 = "0.6"
byte = "0.2"
embedded-hal = "0.2"
nb = "1"
serde = { version = "1", default-features = false, features = ["derive"] }
ssmarshal = "1"
fixed = "1"
micromath = "2"
