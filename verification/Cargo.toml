[package]
name = "dirsearch"
version = "0.1.0"
edition = "2021"
publish = false

[dependencies]
argparse = "*"
colored = "*"
termsize = "*"
