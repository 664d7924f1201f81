[package]
name = "cobweb"
version = "0.1.0"
edition = "2021"
publish = false

[dependencies]
crossbeam = "=0.8.5"
num_cpus = "=1.17.0"
log = "=0.4.34"
hyper = { version = "=0.9.18", default-features = false }
