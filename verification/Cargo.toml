[package]
name = "nsbench"
version = "0.1.0"
edition = "2021"
publish = false

[dependencies]
argh = "0.1"
num_cpus = "1"
trust-dns-resolver = "0.20"
