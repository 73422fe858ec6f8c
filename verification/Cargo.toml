[package]
name = "jav"
version = "0.1.0"
edition = "2021"
publish = false

[dependencies]
tera = { version = "1", default-features = false }
sha2 = "0.10"
anyhow = "1"
clap = { version = "4", features = ["derive"] }
anstream = "0.6"
console = "0.15"
dialoguer = "0.11"
reqwest = { version = "0.12", default-features = false, features = ["blocking", "json", "rustls-tls"] }
serde = { version = "1", features = ["derive"] }
flate2 = "1"
tar = "0.4"
zip = { version = "2", default-features = false, features = ["deflate"] }
toml = "0.8"
