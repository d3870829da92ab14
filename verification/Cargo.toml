[package]
name = "super_process"
version = "0.1.0"
edition = "2021"
publish = false

[dependencies]
async-process = "2"
async-trait = "0.1"
displaydoc = "0.2"
futures-lite = "2"
indexmap = "2"
signal-hook = { version = "0.3", default-features = false }
tempfile = "3"
thiserror = "1"
