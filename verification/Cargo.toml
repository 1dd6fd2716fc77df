[package]
name = "flowaim"
version = "0.1.0"
edition = "2021"
publish = false

[dependencies]
biscuit-auth = "3"
chrono = "0.4"
clap = { version = "4", features = ["derive"] }
config = { version = "0.13", default-features = false, features = ["toml"] }
data-encoding = "2"
dialoguer = "0.10"
ed25519-dalek = "1"
hex = "0.4"
rand = "0.8"
serde = { version = "1", features = ["derive"] }
serde_json = "1"
tabled = "*"
toml = "0.7"
ureq = { version = "2", features = ["json"] }
