[package]
name = "as2p_server"
version = "0.1.0"
edition = "2021"
publish = false

[dependencies]
audiopus = "=0.2.0"
mdns-sd = "=0.21.7"
tokio = { version = "=1.54.1", features = ["rt-multi-thread", "net", "time", "sync", "macros"] }
socket2 = "=0.5.10"
clap = { version = "=4.6.7", features = ["derive"] }
colored = "=3.1.1"
cpal = "=0.17.3"
rubato = "=0.16.2"
rand = "=0.8.8"
