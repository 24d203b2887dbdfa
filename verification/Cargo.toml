[package]
name = "intu"
version = "0.1.0"
edition = "2021"
publish = false

[dependencies]
petgraph = "=0.6.5"
bitvec = "=1.1.1"
either = "=1.19.0"
clap = { version = "=4.6.7", features = ["derive"] }
rustyline = "=14.0.0"
target-lexicon = "=0.12.16"

[dev-dependencies]
rand = "0.9"
