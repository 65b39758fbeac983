[package]
name = "mmir"
version = "0.1.0"
edition = "2021"
publish = false

[dependencies]
ocaml = "1"
