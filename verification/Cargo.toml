[package]
name = "promote_release"
version = "0.1.0"
edition = "2021"
publish = false

[dependencies]
curl = { version = "0.4", default-features = false }
flate2 = "1"
fs2 = "0.4"
rand = "0.8"
tar = "0.4"
toml = "0.8"
xz2 = "0.1"

[dev-dependencies]
serde_json = "1"
