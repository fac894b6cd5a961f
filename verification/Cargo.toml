[package]
name = "kaitou"
version = "0.1.0"
edition = "2021"
publish = false

[dependencies]
anyhow = "*"
bzip2 = "*"
clap = { version = "*", features = ["derive"] }
delharc = "*"
encoding_rs = "*"
env_logger = "*"
flate2 = "*"
indicatif = "*"
log = "*"
sevenz-rust = "*"
tar = "*"
unrar = "*"
xz2 = "*"
zip = "*"
