[package]
name = "roseline_launcher"
version = "0.1.0"
edition = "2021"
publish = false

[dependencies]
sysinfo = "0.5"
vndb = "*"
