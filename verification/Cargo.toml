[package]
name = "fishmael_cache"
version = "0.1.0"
edition = "2021"
publish = false

[dependencies]
redis = { version = "=1.8.0", default-features = false }
twilight-model = "=0.15.4"
syn = "=2.0.119"
quote = "=1.0.47"
proc-macro2 = "=1.0.107"
