[package]
name = "smartonoff"
version = "0.1.0"
edition = "2021"
publish = false

[dependencies]
anyhow = "=1.0.104"
embedded-hal = "=1.0.0-alpha.8"
embedded-svc = "=0.21.3"
esp-idf-hal = "=0.37.4"
esp-idf-svc = { version = "=0.41.4", features = ["experimental", "alloc"] }
esp-idf-sys = { version = "=0.31.12", features = ["binstart", "native"] }
toml-cfg = "=0.1.3"
