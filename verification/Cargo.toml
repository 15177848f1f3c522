[package]
name = "furiosa-version"
version = "0.1.0"
edition = "2021"
publish = false

[dependencies]
clap = "4"
eyre = "0.6"
libloading = "0.8"
