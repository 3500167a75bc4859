[package]
name = "rdw"
version = "0.1.0"
edition = "2021"
publish = false

[dependencies]
log = "=0.4.35"
gtk4 = "=0.9.7"
env_logger = "=0.11.11"
thiserror = "=1.0.69"
ironrdp = { version = "=0.17.0", default-features = false, features = ["displaycontrol"] }
whoami = "*"
