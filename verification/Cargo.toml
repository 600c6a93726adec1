[package]
name = "tab_select"
version = "0.1.0"
edition = "2021"
publish = false

[dependencies]
dioxus = { version = "0.5", features = ["web", "router"] }
dioxus-logger = "0.5.1"
