[package]
name = "codegenrs"
version = "0.1.0"
edition = "2021"
publish = false

[dependencies]
difference = "2"
normalize-line-endings = "0.3"
structopt = "0.3"
derive_more = "0.99"
