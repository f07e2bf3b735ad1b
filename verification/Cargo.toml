[package]
name = "pocket_list"
version = "0.1.0"
edition = "2021"
publish = false

[dependencies]
serde_json = "1"
clap = "2"
curl = "0.4"
