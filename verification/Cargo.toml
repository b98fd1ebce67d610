[package]
name = "slippi_ext"
version = "0.1.0"
edition = "2021"
publish = false

[dependencies]
flate2 = "1"
chksum = "*"
serde_json = "1"
ureq = "2"
