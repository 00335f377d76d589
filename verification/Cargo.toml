[package]
name = "creep_core"
version = "0.1.0"
edition = "2021"
publish = false

[dependencies]
rand = "0.8"
uuid = "1"
screeps-game-api = "*"
log = "0.4"
js-sys = "0.3"
wasm-bindgen = "0.2"
