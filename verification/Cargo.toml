[package]
name = "tristate"
version = "0.1.0"
edition = "2021"
publish = false

[dependencies]
serde = "*"
serde_json = "*"
sqlx = { version = "*", default-features = false, features = ["postgres", "json"] }
