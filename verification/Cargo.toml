[package]
name = "leptos_fetch_demo"
version = "0.1.0"
edition = "2021"
publish = false

[dependencies]
console_error_panic_hook = "0.1"
leptos = { version = "0.8", features = ["csr"] }
leptos-fetch = { version = "*", features = ["devtools"] }
serde = { version = "1", features = ["derive"] }
