[package]
name = "spellout"
version = "0.1.0"
edition = "2021"
publish = false

[dependencies]
icu_locid = "=1.5.0"
