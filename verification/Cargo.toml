[package]
name = "note_relay"
version = "0.1.0"
edition = "2021"
publish = false

[dependencies]
midir = "=0.11.1"
nannou = { version = "=0.17.1", default-features = false }
nannou_core = "=0.17.0"
