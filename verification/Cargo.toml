[package]
name = "dp_counts"
version = "0.1.0"
edition = "2021"
publish = false

[dependencies]
opendp = { version = "=0.6.2", default-features = false, features = ["untrusted", "use-openssl"] }
csv = "=1.4.0"
serde = { version = "=1.0.229", features = ["derive"] }
tui = "=0.19.0"
crossterm = "=0.25.0"
