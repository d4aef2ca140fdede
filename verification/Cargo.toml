[package]
name = "ec_secrets"
version = "0.1.0"
edition = "2021"
publish = false

[dependencies]
base64 = "=0.22.1"
bcrypt = "=0.15.1"
bson = { version = "=2.15.0", features = ["chrono-0_4"] }
chacha20poly1305 = "=0.10.1"
chrono = "=0.4.45"
clap = "=4.6.7"
dotenvy = "=0.15.7"
futures = "=0.3.34"
home = "=0.5.12"
log = "=0.4.34"
mongodb = "=3.9.1"
pasetors = "=0.7.8"
prettytable-rs = "=0.10.0"
rocket = { version = "0.5", features = ["json"] }
rust-argon2 = "=2.1.0"
serde = { version = "=1.0.229", features = ["derive"] }
sha2 = "=0.10.9"
tar = "=0.4.46"
thiserror = "=1.0.69"
tokio = { version = "=1.54.1", features = ["macros", "rt-multi-thread"] }

[dev-dependencies]
bincode = "=1.3.3"
