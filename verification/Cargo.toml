[package]
name = "voxrender"
version = "0.1.0"
edition = "2021"
publish = false

[dependencies]
image = "*"
dot_vox = "*"
structopt = "*"
error-chain = "*"
