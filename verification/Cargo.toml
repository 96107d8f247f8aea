[package]
name = "texlab_launcher"
version = "0.1.0"
edition = "2021"
publish = false

[dependencies]
url = "=2.5.8"
serde_json = "=1.0.151"
lapce-plugin = "=0.1.2"
lsp-types = "0.95"
