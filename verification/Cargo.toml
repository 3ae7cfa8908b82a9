[package]
name = "rnm_3d"
version = "0.1.0"
edition = "2021"
publish = false

[dependencies]
lz4_flex = "0.11"
qoi = "0.4"
rkyv = "0.8"
