[package]
name = "rstat"
version = "0.1.0"
edition = "2021"
publish = false

[dependencies]
ndarray = "*"
rand = "*"
rand_distr = "*"
spaces = "*"
special-fun = "*"
