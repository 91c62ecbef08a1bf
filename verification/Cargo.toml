[package]
name = "livesplit-auto-splitting"
version = "0.1.0"
edition = "2021"
publish = false

[dependencies]
anyhow = "1"
crossbeam-channel = "0.5"
log = "0.4"
read-process-memory = "0.1"
slotmap = "1"
sysinfo = { version = "0.20", default-features = false }
wasmtime = "0.30"
