[package]
name = "aire"
version = "0.3.0"
edition = "2021"
publish = false

[dependencies]
crossbeam-channel = "0.5"
cpal = "*"
hound = "3"
lewton = "0.10"
claxon = "0.4"
rubato = "*"
ringbuf = "0.4"
