[package]
name = "xdp_labs"
version = "0.1.0"
edition = "2021"
publish = false

[dependencies]
anyhow = "=1.0.104"
aya = "=0.13.1"
aya-log = "=0.2.1"
tokio = { version = "=1.54.1", features = ["full"] }
log = "=0.4.35"
env_logger = "=0.11.11"
clap = { version = "=4.6.7", features = ["derive"] }
bytes = "=1.12.1"
mio = { version = "=1.2.4", features = ["os-poll", "os-ext"] }
libc = "=0.2.191"
xdpilone = "=1.3.0"
pcap-file-tokio = "=0.1.0"
axum = "=0.8.9"
serde = { version = "=1.0.229", features = ["derive"] }
serde_json = "=1.0.154"
flexi_logger = { version = "=0.31.10", features = ["async"] }
sudo = "=0.6.0"
