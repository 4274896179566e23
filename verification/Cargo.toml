[package]
name = "file_dialog"
version = "0.1.0"
edition = "2021"
publish = false

[dependencies]
native-dialog = "=0.9.7"
nu-plugin = "=0.113.1"
nu-protocol = "=0.113.1"
