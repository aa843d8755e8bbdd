[package]
name = "tonbo"
version = "0.1.0"
edition = "2021"
publish = false

[dependencies]
fusio = "*"
tokio = { version = "1", features = ["fs", "io-util", "rt", "macros"] }
tokio-util = { version = "0.7", features = ["compat"] }
syn = { version = "2", features = ["full", "extra-traits"] }
quote = "1"
proc-macro2 = "1"
darling = "0.20"
