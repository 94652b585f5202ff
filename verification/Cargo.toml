[package]
name = "search_shortcuts"
version = "0.1.0"
edition = "2021"
publish = false

[dependencies]
url = "2"
psl = "2"
itertools = "0.10"
actix-web = { version = "4", default-features = false, features = ["macros", "openssl", "compress-gzip"] }
env_logger = "*"
openssl = "0.10"
serde = { version = "1", features = ["derive"] }
serde_qs = "*"
thiserror = "1"
worker = "*"
