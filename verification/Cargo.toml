[package]
name = "bmcbl_windows"
version = "0.1.0"
edition = "2021"
publish = false

[dependencies]
serde_json = "1"
sysinfo = "0.35"
num_cpus = "1"
once_cell = "1"
anyhow = "1"
tracing = "0.1"
