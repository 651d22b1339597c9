[package]
name = "galoy_cli"
version = "0.1.0"
edition = "2021"
publish = false

[dependencies]
rust_decimal = "1"
csv = "1"
serde_json = "1"
serde = { version = "1", features = ["derive"] }
anyhow = "1"
thiserror = "1"
clap = { version = "4", features = ["derive", "env"] }
reqwest = { version = "0.11", default-features = false, features = ["json"] }
graphql_client = "0.13"
tokio = { version = "1", features = ["rt", "macros"] }
url = "2"
dirs = "5"
log = "0.4"
actix-web = "4"
tera = "1"
jsonwebtoken = "9"
