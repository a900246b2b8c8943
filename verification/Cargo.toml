[package]
name = "twobombs"
version = "0.1.0"
edition = "2021"
publish = false

[dependencies]
anyhow = "1"
clap = "2"
crossterm = "0.26"
flexi_logger = "*"
log = "0.4"
tempdir = "0.3"
thiserror = "1"
