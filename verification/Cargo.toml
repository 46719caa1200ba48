[package]
name = "cross_krb5"
version = "0.1.0"
edition = "2021"
publish = false

[dependencies]
anyhow = "1"
bytes = "1"
libgssapi = "0.4"
