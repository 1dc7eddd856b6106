[package]
name = "site_core"
version = "0.1.0"
edition = "2021"
publish = false

[dependencies]
leptos = "*"
leptos_meta = "*"
leptos_router = "*"
leptos-use = "*"
phosphor-leptos = "*"
serde = { version = "1", features = ["derive"] }
web-sys = { version = "*", features = ["ScrollBehavior", "ScrollToOptions", "Window"] }
