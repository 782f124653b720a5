[package]
name = "rules-compiler"
version = "0.1.0"
edition = "2021"
publish = false

[dependencies]
chrono = "0.4"
clap = { version = "4", features = ["derive"] }
console = "*"
dialoguer = "*"
dirs = "*"
futures = "0.3"
hex = "0.4"
libc = "0.2"
rand = "0.9"
regex = "1"
reqwest = { version = "0.12", default-features = false, features = ["blocking", "rustls-tls"] }
rustc_version_runtime = "*"
serde = { version = "1", features = ["derive"] }
serde_json = "1"
serde_yaml = "0.9"
sha2 = "0.10"
thiserror = "*"
tokio = { version = "1", features = ["fs", "macros", "process", "rt-multi-thread"] }
toml = "*"
url = "2"
uuid = { version = "1", features = ["v4"] }
walkdir = "2"
which = "*"
