[package]
name = "jtd_validate"
version = "0.1.0"
edition = "2021"
publish = false

[dependencies]
jtd = "=0.3.1"
serde_json = "=1.0.151"
clap = "=4.6.7"
