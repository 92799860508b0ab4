[package]
name = "netlink-dispatcher"
version = "0.1.0"
edition = "2021"
publish = false

[dependencies]
clap = { version = "3.2", features = ["derive"] }
env_logger = "0.9"
futures = "0.3"
humantime = "2.1"
listenfd = "1.0"
log = "0.4"
netlink-packet-route = "0.13"
netlink-proto = "0.10"
nix = "0.24"
rtnetlink = "0.11"
tokio = { version = "1", features = ["macros", "process", "rt", "sync", "time"] }
