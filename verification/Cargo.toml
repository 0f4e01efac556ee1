[package]
name = "reprise_p2p"
version = "0.1.0"
edition = "2021"
publish = false

[dependencies]
anyhow = "=1.0.104"
bincode = "=2.0.1"
chrono = "=0.4.45"
ctrlc = "=3.5.2"
ed25519-dalek = { version = "=3.0.0", features = ["alloc", "pkcs8"] }
if-addrs = "=0.15.0"
log = "=0.4.35"
multicast-discovery-socket = { version = "=0.2.4", features = ["bincode"] }
parking_lot = "=0.12.5"
quinn = "=0.11.12"
rand = "=0.10.3"
rcgen = "=0.14.10"
reqwest = { version = "=0.13.5", default-features = false, features = ["rustls-no-provider"] }
socket2 = { version = "=0.6.5", features = ["all"] }
thiserror = "=2.0.21"
tokio = { version = "=1.54.1", features = ["full"] }
x509-parser = "=0.18.1"
