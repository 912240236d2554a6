[package]
name = "pulsar_vault"
version = "0.1.0"
edition = "2021"
publish = false

[dependencies]
aes-gcm = "0.10"
argon2 = "0.5"
blake3 = "1"
chacha20poly1305 = "0.10"
hkdf = "0.12"
rand = "0.8"
rpassword = "7"
secrecy = "0.8"
sha2 = "0.10"
thiserror = "1"
zeroize = "1"
windows = { version = "0.58", features = ["Win32_Foundation", "Win32_System_DataExchange", "Win32_System_Memory"] }
