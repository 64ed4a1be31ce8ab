[package]
name = "core_tester"
version = "0.1.0"
edition = "2021"
publish = false

[dependencies]
limbo_core = "=0.0.16"
log = "=0.4.34"
rusqlite = { version = "=0.29.0", features = ["bundled"] }
tempfile = "=3.15.0"
