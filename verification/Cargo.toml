[package]
name = "kl_hyphenate_load"
version = "0.1.0"
edition = "2021"
publish = false

[dependencies]
bincode = "1"
kl-hyphenate-commons = "*"
