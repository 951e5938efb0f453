[package]
name = "kvdb_sled"
version = "0.1.0"
edition = "2021"
publish = false

[dependencies]
sled = "*"
kvdb = "0.1"
log = "*"

[dev-dependencies]
tempfile = "*"
