[package]
name = "msgpacknet"
version = "0.1.0"
edition = "2021"
publish = false

[dependencies]
serde = "1"
rmp-serde = "1"
net2 = "0.2"
rand = "0.8"
time = "0.1"
