[package]
name = "circle_core"
version = "0.1.0"
edition = "2021"
publish = false

[dependencies]
argon2 = "=0.5.3"
jsonwebtoken = "=9.3.1"
ring = "=0.17.14"
base64 = "=0.22.1"
rand = "=0.8.8"
aes-gcm = "=0.10.3"
hkdf = "=0.12.4"
sha2 = "=0.10.9"
uuid = { version = "=1.27.0", features = ["v4"] }
chrono = "=0.4.45"
dotenvy = "=0.15.7"
serde_json = "=1.0.151"
