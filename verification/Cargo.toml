[package]
name = "fuchsia_support"
version = "0.1.0"
edition = "2021"
publish = false

[dependencies]
futures = "0.3"
fuchsia-zircon = "0.3"
argh = "*"
thiserror = "1"
failure = "0.1"
pest = "2"
