[package]
name = "a121_stubgen"
version = "0.1.0"
edition = "2021"
publish = false

[dependencies]
bindgen = "=0.73.2"
cc = "=1.10.0"
