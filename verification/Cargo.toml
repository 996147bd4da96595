[package]
name = "hpgl"
version = "0.1.0"
edition = "2021"
publish = false

[dependencies]
serialport = { version = "4", default-features = false }
delaunator = "*"
rand = "*"
gnuplot = "*"
ndarray = "*"
maplit = "1"
