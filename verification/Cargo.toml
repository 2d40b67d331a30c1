[package]
name = "bvilove"
version = "0.1.0"
edition = "2021"
publish = false

[dependencies]
anyhow = "=1.0.104"
async-trait = "=0.1.92"
chrono = "=0.4.45"
dptree = "=0.3.0"
futures-util = "=0.3.34"
itertools = "=0.11.0"
sea-orm = { version = "=0.11.3", default-features = false, features = ["macros", "runtime-tokio-rustls", "sqlx-postgres", "with-chrono"] }
sea-orm-migration = { version = "=0.11.3", default-features = false, features = ["runtime-tokio-rustls", "sqlx-postgres"] }
strsim = "=0.10.0"
# Not used directly: teloxide needs it, and its 0.1.2 asks for Rust 1.96.
takecell = "=0.1.1"
teloxide = { version = "=0.12.2", default-features = false, features = ["ctrlc_handler", "macros", "rustls", "throttle"] }
thiserror = "=1.0.69"
tokio = { version = "=1.54.1", features = ["macros", "rt-multi-thread"] }
tracing = "=0.1.44"
tracing-subscriber = "=0.3.23"
url = "=2.5.8"
