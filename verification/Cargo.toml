[package]
name = "bet2chess"
version = "0.1.0"
edition = "2021"
publish = false

[dependencies]
sails-rs = "*"
