[package]
name = "pizza_api"
version = "0.1.0"
edition = "2021"
publish = false

[dependencies]
actix-web = { version = "4", default-features = false, features = ["macros"] }
dotenv = "0.15"
elasticsearch = "8.5.0-alpha.1"
serde = { version = "1", features = ["derive"] }
serde_json = "1"
