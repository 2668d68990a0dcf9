[package]
name = "trustlink_contract"
version = "0.1.0"
edition = "2021"
publish = false

[dependencies]
stylus-sdk = "=0.6.1"
ruint = "=1.12.3"
