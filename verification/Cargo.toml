[package]
name = "arkham"
version = "0.1.0"
edition = "2021"
publish = false

[dependencies]
anyhow = "*"
crossterm = "*"
ctrlc = "*"
textwrap = "*"
