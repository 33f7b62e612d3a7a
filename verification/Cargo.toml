[package]
name = "gpui_anim"
version = "0.1.0"
edition = "2021"
publish = false

[dependencies]
dashmap = "6.1.0"
smol = "2.0.2"
