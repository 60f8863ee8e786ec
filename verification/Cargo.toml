[package]
name = "podlet"
version = "0.3.0"
edition = "2021"
publish = false

[dependencies]
shlex = "=1.3.0"
path-clean = "=1.0.1"
url = "=2.5.8"
umask = "=2.1.0"
ipnet = "=2.12.2"
serde = { version = "=1.0.229", features = ["derive"] }
clap = { version = "=4.6.7", features = ["derive"] }
thiserror = "=1.0.69"
duration-str = { version = "=0.21.0", default-features = false }
serde_json = "1"
