[package]
name = "maiq_bot"
version = "0.1.0"
edition = "2021"
publish = false

[dependencies]
chrono = "=0.4.45"
fastrand = "=1.9.0"
teloxide = { version = "=0.12.2", default-features = false, features = ["macros", "rustls", "ctrlc_handler"] }
# Not used directly: teloxide-core accepts any takecell 0.1, and 0.1.2 asks for
# rustc 1.96, which is newer than the compiler this crate is built with.
takecell = "=0.1.1"
dptree = "=0.3.0"
mongodb = "=2.8.2"
reqwest = { version = "=0.11.27", default-features = false, features = ["json", "rustls-tls"] }
tokio = { version = "=1.54.1", features = ["rt-multi-thread", "macros", "time"] }
serde = { version = "=1.0.229", features = ["derive"] }
bincode = "=1.3.3"
dotenvy = "=0.15.7"
log = "=0.4.34"
pretty_env_logger = "=0.4.0"
thiserror = "=1.0.69"
async-trait = "=0.1.92"
lazy_static = "=1.5.1"
