[package]
name = "hodgey_chess"
version = "0.1.0"
edition = "2021"
publish = false

[dependencies]
shakmaty = "=0.27.3"
rand = "=0.8.8"
