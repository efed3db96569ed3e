[package]
name = "rig_panel"
version = "0.1.0"
edition = "2021"
publish = false

[dependencies]
serde = { version = "1", features = ["derive"] }
yew = { version = "0.21", features = ["csr"] }
gloo = "0.11"
gloo-timers = "0.3"
wasm-bindgen-futures = "0.4"
