[package]
name = "bpf_map"
version = "0.1.0"
edition = "2021"
publish = false

[dependencies]
bitflags = "=1.3.2"
libbpf-sys = "=1.7.0"
nix = "=0.31.3"
num_enum = "=0.5.11"
strum_macros = "=0.19.4"
