[package]
name = "hatchling"
version = "0.1.0"
edition = "2021"
publish = false

[dependencies]
rdf = "=0.1.4"
serde = { version = "=1.0.229", features = ["derive"] }
serde_json = "=1.0.154"
