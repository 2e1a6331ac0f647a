[package]
name = "pinguin"
version = "0.1.0"
edition = "2021"
publish = false

[dependencies]
byteorder = "1"
rand = "0.8"
pnet = "*"
pnet_macros_support = "*"
clap = "2"
futures-preview = "0.3.0-alpha"
romio = "0.3.0-alpha"
