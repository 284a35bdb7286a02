[package]
name = "osrm_instructions"
version = "0.1.0"
edition = "2021"
publish = false

[dependencies]
serde_json = "*"
polyline = "*"
geo = "*"
osrm-openapi-models = "*"
