[package]
name = "aero"
version = "0.1.0"
edition = "2021"
publish = false

[dependencies]
cc = "*"
fs_extra = "*"
nasm-rs = "*"
structopt = "*"
target-lexicon = "*"
tokio = { version = "*", features = ["macros", "rt-multi-thread"] }
