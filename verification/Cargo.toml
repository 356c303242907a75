[package]
name = "alem_sync"
version = "0.1.0"
edition = "2021"
publish = false

[dependencies]
anyhow = "=1.0.104"
bs58 = "=0.5.1"
chrono = "=0.4.45"
console_error_panic_hook = "=0.1.7"
console_log = "=1.1.0"
ed25519-dalek = { version = "=2.2.0", features = ["rand_core"] }
js-sys = "=0.3.106"
keyring = "=3.6.3"
libsql = { version = "=0.10.0", default-features = false, features = ["core"] }
log = "=0.4.34"
rand = "=0.8.8"
reqwest = { version = "=0.12.28", default-features = false, features = ["json", "rustls-tls"] }
serde = { version = "=1.0.229", features = ["derive"] }
serde-wasm-bindgen = "=0.6.5"
serde_json = "=1.0.154"
sha2 = "=0.10.9"
tokio = { version = "=1.54.1", features = ["rt-multi-thread", "time", "fs", "sync"] }
uuid = { version = "=1.29.0", features = ["v4"] }
wasm-bindgen = "=0.2.129"
wasm-bindgen-futures = "=0.4.79"
web-sys = { version = "=0.3.106", features = ["DomStringList", "Event", "EventTarget", "IdbDatabase", "IdbFactory", "IdbObjectStore", "IdbOpenDbRequest", "IdbRequest", "IdbTransaction", "IdbTransactionMode", "Window", "console"] }
