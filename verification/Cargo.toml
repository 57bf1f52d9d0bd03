[package]
name = "font-codegen"
version = "0.1.0"
edition = "2021"
publish = false

[dependencies]
font-types = "*"
log = "0.4"
miette = "*"
proc-macro2 = "1"
quote = "1"
serde = { version = "1", features = ["derive"] }
syn = { version = "1", features = ["full", "extra-traits"] }
zerocopy = "0.6"
