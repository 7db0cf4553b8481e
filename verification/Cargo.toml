[package]
name = "mldsa"
version = "0.1.0"
edition = "2021"
publish = false

[dependencies]
ml-dsa = "*"
getrandom = "*"
zeroize = "*"
base64 = "*"
serde = { version = "*", features = ["derive"] }
wasm-bindgen = "*"
tsify = "*"
