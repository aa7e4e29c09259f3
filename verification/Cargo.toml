[package]
name = "wlt_task"
version = "0.1.0"
edition = "2021"
publish = false

[dependencies]
aes-gcm-siv = "=0.12.1"
anyhow = "=1.0.104"
blake2 = "=0.11.0"
chrono = { version = "=0.4.45", default-features = false, features = ["clock"] }
encoding_rs = "=0.8.42"
hex = "=0.4.3"
lettre = { version = "=0.11.23", default-features = false, features = ["smtp-transport", "builder"] }
machine-uid = "=0.6.0"
reqwest = { version = "=0.13.5", default-features = false, features = ["blocking", "form"] }
serde = { version = "=1.0.229", features = ["derive"] }
toml = "=1.1.6"
urlencoding = "=2.1.3"
