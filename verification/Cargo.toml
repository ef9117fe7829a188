[package]
name = "thrussh_keys"
version = "0.1.0"
edition = "2021"
publish = false

[dependencies]
aes = { version = "0.7", features = ["ctr"] }
block-modes = "0.8"
bcrypt-pbkdf = "0.10"
openssl = "0.10"
p256 = "0.13"
