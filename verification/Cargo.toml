[package]
name = "gitterm"
version = "0.1.0"
edition = "2021"
publish = false

[dependencies]
indicatif = "=0.18.6"
minus = { version = "=5.8.0", features = ["static_output"] }
git2 = { version = "=0.21.0", default-features = false }
clap = { version = "=4.6.7", features = ["derive"] }
clap_complete = "=4.6.11"
chrono = "=0.4.45"
colored = "=3.1.1"
http = "=1.5.0"
inquire = "=0.9.4"
pager = "=0.16.1"
resolve-path = "=0.1.0"
ssh2-config = "=0.8.1"
tracing = "=0.1.44"
tracing-subscriber = { version = "=0.3.23", features = ["env-filter"] }
