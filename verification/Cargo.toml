[package]
name = "compiler-llvm-builder"
version = "1.0.0"
edition = "2021"
publish = false

[dependencies]
anyhow = "1"
downloader = "0.2"
flate2 = "1"
fs_extra = "1"
http = "1"
num_cpus = "1"
path-slash = "0.2"
regex = "1"
tar = "0.4"
