[package]
name = "rustbox"
version = "0.1.0"
edition = "2021"
publish = false

[dependencies]
termbox-sys = "*"
gag = "*"
num-traits = "*"
bitflags = "*"
