[package]
name = "cbers4asat"
version = "0.1.0"
edition = "2021"
publish = false

[dependencies]
chrono = "*"
geojson = "*"
serde_json = "*"
serde = { version = "*", features = ["derive"] }
clap = { version = "*", features = ["derive"] }
reqwest = { version = "*", default-features = false, features = ["blocking", "json"] }
