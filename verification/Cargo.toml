[package]
name = "unwrap_rs"
version = "0.1.0"
edition = "2021"
publish = false

[dependencies]
rand = "=0.9.5"
log = "=0.4.35"
bytes = "=1.12.1"
http = "=1.5.0"
serde = { version = "=1.0.229", features = ["derive"] }
tokio = { version = "=1.54.1", features = ["macros", "rt-multi-thread", "net", "fs"] }
leptos = { version = "=0.8.23", features = ["csr"] }
yew = { version = "=0.21.0", features = ["csr"] }
gloo-timers = "=0.3.0"
js-sys = "=0.3.107"
wasm-bindgen = "=0.2.130"
web-sys = { version = "=0.3.107", features = ["Window"] }
