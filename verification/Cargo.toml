[package]
name = "shell_core"
version = "0.1.0"
edition = "2021"
publish = false

[dependencies]
anyhow = "1"
is_executable = "1"
