[package]
name = "logic_nih_plug"
version = "0.1.0"
edition = "2021"
publish = false

[dependencies]
glow = "*"
thiserror = "*"
