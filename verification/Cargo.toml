[package]
name = "decrypt_file"
version = "0.1.0"
edition = "2021"
publish = false

[dependencies]
aes = "0.8"
cbc = "0.1"
sha2 = "0.10"
clap = { version = "4", features = ["derive"] }
