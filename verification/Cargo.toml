[package]
name = "dirwatch"
version = "0.1.0"
edition = "2021"
publish = false

[dependencies]
notify = "=6.1.1"
libssh-rs = "=0.3.8"
thiserror = "=1.0.69"
