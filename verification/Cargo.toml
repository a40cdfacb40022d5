[package]
name = "javap"
version = "0.1.0"
edition = "2021"
publish = false

[dependencies]
clap = "=2.34.0"
classfile = "=0.4.0"
classfile-parser = "*"
libc = "=0.2.191"
