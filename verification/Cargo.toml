[package]
name = "process_viewer"
version = "0.1.0"
edition = "2021"
publish = false

[dependencies]
gtk = "0.15"
sysinfo = "0.23"
