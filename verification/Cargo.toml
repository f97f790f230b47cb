[package]
name = "translator"
version = "0.1.0"
edition = "2021"
publish = false

[dependencies]
scraper = "=0.13.0"
cssparser = "=0.27.2"
selectors = "=0.22.0"
vecshard = "=0.2.1"
clap = { version = "=3.2.25", features = ["derive"] }
colored = "=2.2.0"
reqwest = { version = "=0.11.27", default-features = false, features = ["rustls-tls"] }
tokio = { version = "=1.54.1", features = ["macros", "rt-multi-thread"] }
