[package]
name = "libarp"
version = "0.1.0"
edition = "2021"
publish = false

[dependencies]
pnet = "*"
maybe-async = { version = "*", features = ["is_sync"] }
