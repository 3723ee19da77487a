[package]
name = "rsendmail"
version = "0.1.0"
edition = "2021"
publish = false

[dependencies]
mail-send = "=0.6.2"
mail-parser = "=0.11.9"
infer = "=0.22.0"
rand = "=0.10.3"
num_cpus = "=1.17.0"
tokio = { version = "*", features = ["rt-multi-thread", "macros", "time", "io-util", "net"] }
tokio-rustls = "=0.26.6"
anyhow = "*"
log = "*"
clap = "*"
ctrlc = "*"
walkdir = "*"
simplelog = "*"

[dev-dependencies]
regex = "=1.13.1"
