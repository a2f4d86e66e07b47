[package]
name = "lustre"
version = "0.1.0"
edition = "2021"
publish = false

[dependencies]
clap = { version = "*", features = ["derive"] }
clap-verbosity-flag = "*"
glam = "*"
image = "*"
indicatif = "*"
noise = "*"
num-traits = "*"
rand = "*"
rand_distr = "*"
rayon = "*"
