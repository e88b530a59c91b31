[package]
name = "sev"
version = "0.1.0"
edition = "2021"
publish = false

[dependencies]
sha2 = "=0.10.9"
hmac = "=0.12.1"
p256 = { version = "=0.13.2", features = ["ecdsa", "ecdh"] }
aes = "=0.8.4"
ctr = "=0.9.2"
rand_core = { version = "=0.6.4", features = ["getrandom"] }
iocuddle = "=0.3.0"
zerocopy = { version = "0.8", features = ["derive"] }
