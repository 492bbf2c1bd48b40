[package]
name = "teon"
version = "0.1.0"
edition = "2021"
publish = false

[dependencies]
bigdecimal = "0.4"
serde_json = "1"
chrono = "0.4"
bson = "2"
indexmap = "2"
