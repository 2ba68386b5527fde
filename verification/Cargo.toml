[package]
name = "yes_or_no"
version = "0.1.0"
edition = "2021"
publish = false

[dependencies]
crossterm = "0.28"
