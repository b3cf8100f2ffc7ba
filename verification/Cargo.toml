[package]
name = "stack_exec"
version = "0.1.0"
edition = "2021"
publish = false

[dependencies]
svi = "*"
anyhow = "1"
