[package]
name = "krill"
version = "0.1.0"
edition = "2021"
publish = false

[dependencies]
chrono = "0.4"
clap = "2"
fern = "0.6"
hyper = "0.14"
libc = "0.2"
log = "0.4"
rand = "0.8"
rpki = "*"
serde = { version = "1", features = ["derive"] }
syslog = "6"
toml = "0.5"
