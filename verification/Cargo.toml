[package]
name = "lapin"
version = "0.1.0"
edition = "2021"
publish = false

[dependencies]
amq-protocol = { version = "=7.2.3", default-features = false }
bastion = "0.4"
futures = "=0.1.31"
log = "=0.4.34"
parking_lot = "=0.12.5"
tokio-io = "=0.1.13"
