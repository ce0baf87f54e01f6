[package]
name = "unit_of_work"
version = "0.1.0"
edition = "2021"
publish = false

[dependencies]
anyhow = "1"
async-trait = "0.1"
derive-new = "*"
sea-orm = { version = "*", default-features = false }
