[package]
name = "verdigris_core"
version = "0.1.0"
edition = "2021"
publish = false

[dependencies]
color-art = "=0.3.9"
leptos = { version = "=0.4.10", default-features = false }
leptos_meta = { version = "=0.4.10", default-features = false }
leptos_router = { version = "=0.4.10", default-features = false }
leptos_icons = { version = "=0.0.15", features = ["CgSoftwareDownload"] }
