[package]
name = "clap2man"
version = "0.1.0"
edition = "2021"
publish = false

[dependencies]
clap = "4"
man = "0.3"
thiserror = "2"
