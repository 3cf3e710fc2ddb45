[package]
name = "graphql_testkit"
version = "0.1.0"
edition = "2021"
publish = false

[dependencies]
actix-web = { version = "*", default-features = false }
serde = { version = "*", features = ["derive"] }
serde_json = "*"
