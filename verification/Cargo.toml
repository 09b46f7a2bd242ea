[package]
name = "oracle"
version = "0.1.0"
edition = "2021"
publish = false

[dependencies]
chrono = "=0.4.45"
itertools = "=0.10.5"
libc = "=0.2.191"
quick-xml = { version = "*", features = ["serialize"] }
serde = { version = "1", features = ["derive"] }
