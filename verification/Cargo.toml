[package]
name = "vkp"
version = "0.1.0"
edition = "2021"
publish = false

[dependencies]
ursa = { version = "=0.3.6", default-features = false, features = ["aescbc", "ecdsa_secp256k1_native"] }
tiny-hderive = "=0.3.0"
sha2 = "=0.9.9"
wasm-bindgen = "=0.2.129"
wee_alloc = "=0.4.5"
