[package]
name = "cargo_lambda"
version = "0.1.0"
edition = "2021"
publish = false

[dependencies]
zip = "0.5"
structopt = "0.3"
clap = "2"
termion = "1"
thiserror = "1"
