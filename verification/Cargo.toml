[package]
name = "servo_embedder"
version = "0.1.0"
edition = "2021"
publish = false

[dependencies]
gleam = "=0.16.0"
