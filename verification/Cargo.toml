[package]
name = "sugarfunge_api"
version = "0.1.0"
edition = "2021"
publish = false

[dependencies]
sp-core = "=43.0.0"
sp-crypto-hashing = "=0.1.0"
hex = "=0.4.3"
rand = "=0.10.3"
serde = { version = "1", features = ["derive"] }
serde_json = "1"
actix-web = { version = "=4.15.0", default-features = false, features = ["macros"] }
actix-cors = "=0.7.2"
actix-web-middleware-keycloak-auth = "=0.5.0"
awc = { version = "=3.8.2", default-features = false }
