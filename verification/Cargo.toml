[package]
name = "parallel_sh"
version = "0.1.0"
edition = "2021"
publish = false

[dependencies]
lexopt = "*"
log = "*"
num_cpus = "*"
simplelog = "*"
time = "*"
