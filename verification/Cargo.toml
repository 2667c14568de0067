[package]
name = "httpfs"
version = "0.1.0"
edition = "2021"
publish = false

[dependencies]
fuser = { version = "=0.14.0", default-features = false }
libc = "=0.2.190"
ureq = "=2.12.1"
daemonize = "=0.5.0"
env_logger = "=0.11.11"
log = "=0.4.34"
clap = { version = "=4.6.7", features = ["derive"] }
byte-unit = "=4.0.19"
thiserror = "=1.0.69"
