[package]
name = "docks"
version = "0.1.0"
edition = "2021"
publish = false

[dependencies]
chrono = "=0.4.45"
ignore = "=0.4.34"
inquire = "=0.7.5"
is_executable = "=1.0.6"
serde = { version = "=1.0.229", features = ["derive"] }
toml = "=0.8.23"
