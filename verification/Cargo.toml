[package]
name = "todomvc"
version = "0.1.0"
edition = "2021"
publish = false

[dependencies]
axum = "0.7"
sqlx = { version = "0.8", default-features = false, features = ["runtime-tokio", "sqlite", "derive"] }
tower-http = { version = "0.5", features = ["cors", "fs"] }
tracing = "0.1"
serde = { version = "1", features = ["derive"] }
leptos = { version = "0.6", features = ["csr"] }
gloo-net = { version = "0.5", default-features = false, features = ["http", "json"] }
wasm-bindgen = "0.2"
web-sys = { version = "0.3", features = ["KeyboardEvent", "Window", "Location"] }
