[package]
name = "motoko_bridge"
version = "0.1.0"
edition = "2021"
publish = false

[dependencies]
motoko = "=0.0.32"
candid = "=0.8.4"
lalrpop-util = { version = "0.19", features = ["lexer"] }
serde = { version = "*", features = ["derive"] }
wasm-bindgen = "*"
serde-wasm-bindgen = "*"
console_error_panic_hook = "*"
