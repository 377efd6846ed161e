[package]
name = "pifu"
version = "0.1.0"
edition = "2021"
publish = false

[dependencies]
ar = "*"
chrono = "*"
clap = "*"
directories = "*"
flate2 = "*"
fs_extra = "*"
glob = "*"
md5 = "*"
num_cpus = "*"
regex = "*"
reqwest = { version = "*", default-features = false, features = ["blocking"] }
serde = "*"
serde_derive = "*"
sha2 = "*"
tar = "*"
toml = "*"
walkdir = "*"
xz2 = "*"

[dev-dependencies]
hex = "*"
