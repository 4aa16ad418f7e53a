[package]
name = "tsc_explainer"
version = "0.1.0"
edition = "2021"
publish = false

[dependencies]
regex = "1"
reqwest = { version = "0.12", features = ["blocking", "json"] }
serde_json = "1"
