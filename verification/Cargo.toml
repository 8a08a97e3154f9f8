[package]
name = "upld"
version = "0.1.0"
edition = "2021"
publish = false

[dependencies]
blake3 = "1"
bs58 = "0.5"
fastly = "*"
humanize-bytes = "*"
humantime = "2"
serde_json = "1"
tinytemplate = "1"
