[package]
name = "fuel_types"
version = "0.1.0"
edition = "2021"
publish = false

[dependencies]
bounded-integer = { version = "=0.6.2", features = ["macro"] }
rand = "=0.10.3"
serde = "=1.0.229"
