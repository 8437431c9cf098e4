[package]
name = "crowbook"
version = "0.1.0"
edition = "2021"
publish = false

[dependencies]
clap = "2"
crowbook-text-processing = "0.2"
epub-builder = "0.4"
numerals = "0.1"
