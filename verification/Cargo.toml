[package]
name = "multitenant_worker"
version = "0.1.0"
edition = "2021"
publish = false

[dependencies]
libmacaroon = "=0.3.0"
argon2 = "=0.5.3"
password-hash = { version = "=0.5.0", features = ["rand_core"] }
rand_core = { version = "=0.6.4", features = ["getrandom"] }
base64 = "=0.22.1"
uuid = { version = "=1.29.0", features = ["v4"] }
url = "=2.5.8"
http = "=1.5.0"
