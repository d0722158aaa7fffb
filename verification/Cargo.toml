[package]
name = "idaphs_cad"
version = "0.1.0"
edition = "2021"
publish = false

[dependencies]
truck-modeling = "=0.6.0"
truck-topology = "=0.6.0"
cgmath = "=0.18.0"
truck-meshalgo = "=0.4.0"
truck-polymesh = "=0.6.0"
truck-platform = "=0.6.0"
serde_json = "=1.0.154"
arc-swap = "=1.9.3"
smol = "=2.0.2"
lyon = "=1.0.19"
bytemuck = { version = "=1.25.2", features = ["derive"] }
