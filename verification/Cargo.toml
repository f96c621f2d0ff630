[package]
name = "npm_registry"
version = "0.1.0"
edition = "2021"
publish = false

[dependencies]
deno_npm = "*"
log = "*"
serde_json = "*"
url = "*"
