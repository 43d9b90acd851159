[package]
name = "waitfor"
version = "0.1.0"
edition = "2021"
publish = false

[dependencies]
leaprs = "*"
throbber = "*"
image = "*"
