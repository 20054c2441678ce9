[package]
name = "parsec_se_driver"
version = "0.1.0"
edition = "2021"
publish = false

[dependencies]
parsec-client = "=0.16.0"
psa-crypto = { version = "=0.12.0", default-features = false }
uuid = "=0.8.2"
log = "=0.4.35"
env_logger = "=0.11.11"
lazy_static = "=1.5.1"

[dev-dependencies]
parsec-interface = "=0.29.1"
