[package]
name = "flowrs_build"
version = "0.1.0"
edition = "2021"
publish = false

[dependencies]
chrono = "*"
handlebars = "*"
serde = { version = "*", features = ["derive"] }
serde_json = "*"
dotenv = "*"
