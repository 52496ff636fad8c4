[package]
name = "hooklings"
version = "0.1.0"
edition = "2021"
publish = false

[dependencies]
serde = { version = "=1.0.229", features = ["derive"] }
serde_json = "=1.0.154"
toml = "=0.8.23"
chrono = "=0.4.45"
thiserror = "=1.0.69"
anyhow = "=1.0.104"
clap = { version = "=4.6.7", features = ["derive"] }
tokio = { version = "=1.54.1", features = ["macros", "rt-multi-thread", "process"] }
rusqlite = { version = "*", features = ["bundled"] }
cruxx-script = "=0.2.6"
cruxx-core = "=0.2.6"
cruxx-types = "=0.2.6"
cruxx-agentic = "=0.2.6"

[dev-dependencies]
tempfile = "=3.27.0"
