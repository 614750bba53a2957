[package]
name = "pros_async"
version = "0.1.0"
edition = "2021"
publish = false

[dependencies]
pros-sys = "*"
pros-core = "*"
snafu = "*"
