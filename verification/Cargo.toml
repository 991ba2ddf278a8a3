[package]
name = "rocket_yew_todo"
version = "0.1.0"
edition = "2021"
publish = false

[dependencies]
bson = "=1.2.4"
mongodb = { version = "=1.2.5", default-features = false, features = ["sync"] }
rocket = { version = "0.5.2", features = ["json"] }
serde = { version = "=1.0.229", features = ["derive"] }
serde_derive = "=1.0.229"
yew = { version = "=0.17.4", features = ["web_sys"] }
yewtil = { version = "=0.3.2", features = ["fetch"] }
wasm-bindgen = "=0.2.130"
anyhow = "=1.0.104"
strum = "=0.19.5"
strum_macros = "=0.19.4"
