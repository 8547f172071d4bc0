[package]
name = "codeclippy"
version = "0.1.0"
edition = "2021"
publish = false

[dependencies]
arboard = "3"
clap = "4"
env_logger = "0.10"
log = "0.4"
prettyplease = "0.2"
proc-macro2 = { version = "1", features = ["span-locations"] }
quote = "1"
syn = { version = "2", features = ["full", "visit", "extra-traits"] }
