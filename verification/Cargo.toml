[package]
name = "deno_minifb"
version = "0.1.0"
edition = "2021"
publish = false

[dependencies]
minifb = "*"
once_cell = "*"
