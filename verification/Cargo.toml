[package]
name = "tline"
version = "0.1.0"
edition = "2021"
publish = false

[dependencies]
hdf5 = "*"
indicatif = "*"
ndarray = "*"
thiserror = "*"
