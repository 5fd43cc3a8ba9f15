[package]
name = "dg"
version = "0.1.0"
edition = "2021"
publish = false

[dependencies]
git2 = { version = "*", default-features = false }
owo-colors = "*"
ignore = "*"
indicatif = "*"
num_cpus = "*"
tabled = "*"
argh = "*"
eyre = "*"
serde = "*"
serde_derive = "*"
