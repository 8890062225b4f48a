[package]
name = "uni_app"
version = "0.1.0"
edition = "2021"
publish = false

[dependencies]
glutin = "0.24"
stdweb = "0.4"
time = "0.1"
