[package]
name = "mrecv"
version = "0.1.0"
edition = "2021"
publish = false

[dependencies]
chrono = { version = "0.4", default-features = false, features = ["clock"] }
clap = "2"
pnet_datalink = "*"
socket2 = "0.3"
