[package]
name = "trait_enumizer"
version = "0.1.0"
edition = "2021"
publish = false

[dependencies]
convert_case = "0.6"
flume = { version = "0.11", default-features = false }
crossbeam-channel = "0.5"
tokio = { version = "1", default-features = false, features = ["sync"] }
syn = { version = "1", features = ["full"] }
quote = "1"
proc-macro2 = "1"
