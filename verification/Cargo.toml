[package]
name = "h1_dispatcher"
version = "0.1.0"
edition = "2021"
publish = false

[dependencies]
actix-codec = "=0.5.4"
actix-service = "=2.0.3"
bytes = "=1.12.1"
log = "=0.4.35"
