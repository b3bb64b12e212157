[package]
name = "polymorphic_packer"
version = "0.1.0"
edition = "2021"
publish = false

[dependencies]
aes = "0.7.5"
block-modes = "0.8.1"
flate2 = "1"
goblin = "*"
rand = "0.8"
humantime = "2"
clap = { version = "4", features = ["derive"] }
crossterm = "0.27"
ratatui = "0.26"
