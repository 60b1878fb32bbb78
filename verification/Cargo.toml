[package]
name = "aioworldline"
version = "0.1.0"
edition = "2021"
publish = false

[dependencies]
anyhow = "=1.0.104"
chrono = "=0.4.45"
csv = "=1.4.0"
envy = "=0.4.2"
pyo3 = "*"
pyo3-async-runtimes = { version = "*", features = ["tokio-runtime"] }
reqwest = { version = "=0.12.28", default-features = false, features = ["cookies", "rustls-tls"] }
scraper = "=0.20.0"
secrecy = { version = "=0.10.3", features = ["serde"] }
serde = { version = "=1.0.229", features = ["derive"] }
thiserror = "=2.0.21"
tokio = { version = "=1.54.1", features = ["macros", "rt-multi-thread", "time"] }
tracing = "=0.1.44"
tracing-subscriber = { version = "=0.3.23", features = ["env-filter"] }
