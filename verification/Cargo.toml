[package]
name = "widget_engine"
version = "0.1.0"
edition = "2021"
publish = false

[dependencies]
typst = "=0.15.1"
typst-render = "=0.15.1"
typst-layout = "=0.15.1"
typst-assets = { version = "=0.15.1", features = ["fonts"] }
image = { version = "=0.25.10", default-features = false, features = ["png"] }
chrono = "=0.4.45"
anyhow = "=1.0.104"
axum = "=0.8.9"
tokio = { version = "=1.53.2", features = ["rt-multi-thread", "macros", "signal", "net"] }
reqwest = { version = "=0.12.28", default-features = false, features = ["json", "rustls-tls"] }
serde = { version = "=1.0.229", features = ["derive"] }
tracing = "=0.1.44"
once_cell = "=1.21.4"
