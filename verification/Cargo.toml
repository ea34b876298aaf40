[package]
name = "cargobuild"
version = "0.1.0"
edition = "2021"
publish = false

[dependencies]
cargo-util = "=0.2.14"
