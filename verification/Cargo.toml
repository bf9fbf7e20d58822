[package]
name = "sms_verification"
version = "0.1.0"
edition = "2021"
publish = false

[dependencies]
log = "0.4"
reqwest = "0.12"
rust-i18n = "3"
sqlx = { version = "0.8", default-features = false, features = ["postgres", "runtime-tokio"] }
tonic = "0.12"
