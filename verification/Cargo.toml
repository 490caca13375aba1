[package]
name = "trussed-hkdf"
version = "0.1.0"
edition = "2021"
publish = false

[dependencies]
heapless-bytes = "=0.3.0"
hkdf = "=0.11.0"
log = "=0.4.34"
serde = { version = "=1.0.229", default-features = false, features = ["derive"] }
sha2 = "=0.9.9"
trussed = { version = "=0.2.0", features = ["serde-extensions", "virt"] }
trussed-core = { version = "=0.2.3", features = ["serde-extensions"] }

[dev-dependencies]
hmac = "=0.11.0"
