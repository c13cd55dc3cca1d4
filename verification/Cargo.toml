[package]
name = "raw_slice"
version = "0.1.0"
edition = "2021"

[dependencies]
embedded-dma = "*"
