[package]
name = "ballista_core"
version = "0.1.0"
edition = "2021"
publish = false

[dependencies]
datafusion = { version = "=11.0.0", default-features = false }
serde = { version = "=1.0.229", features = ["derive"] }
# Held back for arrow 20, on which datafusion 11 builds: from 0.4.40 on,
# chrono's `Datelike::quarter` clashes with arrow's own method of that name.
chrono = { version = "=0.4.39", default-features = false }
