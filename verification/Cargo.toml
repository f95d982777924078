[package]
name = "onigmo"
version = "0.1.0"
edition = "2021"
publish = false

[dependencies]
onig = { version = "=6.5.3", default-features = false }
rand = "=0.10.3"
rand_pcg = "=0.10.2"
