[package]
name = "kyberlib"
version = "0.1.0"
edition = "2021"
publish = false

[dependencies]
aes = "=0.8.4"
ctr = "=0.9.2"
rand = "=0.8.8"
rand_core = { version = "=0.6.4", features = ["getrandom"] }
sha2 = "=0.10.9"
wasm-bindgen = "=0.2.129"
zeroize = "=1.9.1"
