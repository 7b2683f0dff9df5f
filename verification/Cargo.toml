[package]
name = "graph_substreams"
version = "0.1.0"
edition = "2021"
publish = false

[dependencies]
hex = "0.4"
prost = "0.10"
serde_json = "1"
anyhow = "1"
