[package]
name = "cake_core"
version = "0.1.0"
edition = "2021"
publish = false

[dependencies]
anyhow = "1"
human_bytes = "0.4"
log = "0.4"
memory-stats = "1"
