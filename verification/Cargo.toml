[package]
name = "bootimage_pipeline"
version = "0.1.0"
edition = "2021"
publish = false

[dependencies]
bootloader-locator = "*"
cargo-manifest = "*"
clap = { version = "*", features = ["derive"] }
locate-cargo-manifest = "*"
log = "*"
simple_logger = "*"
wait-timeout = "*"
