[package]
name = "kdwm"
version = "0.1.0"
edition = "2021"
publish = false

[dependencies]
chrono = "=0.4.45"
penrose = "=0.3.6"
penrose_ui = "=0.3.6"
tracing = "=0.1.44"
tracing-subscriber = { version = "=0.3.23", features = ["env-filter"] }

[dev-dependencies]
penrose_keysyms = "=0.3.6"
