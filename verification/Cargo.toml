[package]
name = "modpack_updater"
version = "0.1.0"
edition = "2021"
publish = false

[dependencies]
anyhow = "=1.0.104"
arboard = { version = "3", default-features = false }
crossterm = "=0.27.0"
directories = "=5.0.1"
git2 = "=0.18.3"
lazy_static = "=1.5.1"
octocrab = "=0.41.2"
ratatui = "=0.26.3"
reqwest = { version = "=0.12.28", default-features = false, features = ["blocking", "json", "rustls-tls"] }
self_update = { version = "=0.42.0", default-features = false, features = ["rustls"] }
serde = { version = "1", features = ["derive"] }
tokio = { version = "1", features = ["rt-multi-thread"] }
tui-input = "=0.8.0"
which = "=6.0.3"
