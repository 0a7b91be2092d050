[package]
name = "day-piece-camera"
version = "0.1.0"
edition = "2021"
publish = false

[dependencies]
day-core = "=0.6.3"
day-part-permissions = "=0.6.3"
day-pieces = "=0.6.3"
day-reactive = "=0.6.3"
day-spec = "=0.6.3"
log = "0.4"
