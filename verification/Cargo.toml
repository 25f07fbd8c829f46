[package]
name = "imgcmp"
version = "0.1.0"
edition = "2021"
publish = false

[dependencies]
image = "=0.23.14"
clap = "=2.34.0"

[dev-dependencies]
fs_extra = "1"
