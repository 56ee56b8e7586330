[package]
name = "ssh_session"
version = "0.1.0"
edition = "2021"
publish = false

[dependencies]
ssh2 = "*"
