[package]
name = "interp_core"
version = "0.1.0"
edition = "2021"

[dependencies]
nom = "7"
