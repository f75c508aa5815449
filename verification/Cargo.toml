[package]
name = "geo_clipper"
version = "0.1.0"
edition = "2021"
publish = false

[dependencies]
clipper-sys = "*"
geo-types = "*"
