[package]
name = "verdant_protocol"
version = "0.1.0"
edition = "2021"
publish = false

[dependencies]
aes-gcm = "0.10"
anyhow = "1"
base64 = "0.21"
bincode = { version = "2", features = ["serde"] }
der = "0.7"
hkdf = "0.12"
hmac = "0.12"
jni = "0.21"
jni-sys = "*"
jsonwebtoken = "9"
keycast = "*"
mdns-sd = "*"
opaque-ke = "3"
rand = "0.8"
reqwest = { version = "0.12", default-features = false, features = ["json"] }
rsa = "0.9"
serde = { version = "1", features = ["derive"] }
serde_derive = "1"
serde_json = "1"
sha2 = "0.10"
spki = "0.7"
thiserror = "1"
tokio = { version = "1", features = ["rt-multi-thread", "sync", "time", "net", "macros"] }
uuid = { version = "1", features = ["v4", "serde"] }
