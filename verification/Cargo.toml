[package]
name = "mica_term"
version = "0.1.0"
edition = "2021"
publish = false

[dependencies]
uuid = { version = "1", features = ["v4"] }
sha2 = "0.10"
zmodem2 = "*"
anyhow = "1"
serde = { version = "1", features = ["derive"] }
serde_json = "1"
bincode = "1"
redb = "2"
keyring = "3"
directories = "5"
trash = "5"
chacha20poly1305 = "0.10"
rand_core = { version = "0.6", features = ["getrandom"] }
fontdb = "0.23"
