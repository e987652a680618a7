[package]
name = "geos_prepared"
version = "0.1.0"
edition = "2021"
publish = false

[dependencies]
geos-sys = "2.0"
