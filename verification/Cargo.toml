[package]
name = "elf64"
version = "0.1.0"
edition = "2021"
publish = false

[dependencies]
memmap = "0.7"
