[package]
name = "oidc_login"
version = "0.1.0"
edition = "2021"
publish = false

[dependencies]
async-trait = "0.1"
tiny_http = "0.12"
tokio = { version = "1", default-features = false, features = ["rt"] }
url = "=2.4.1"
