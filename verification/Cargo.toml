[package]
name = "act_lib"
version = "0.1.0"
edition = "2021"
publish = false

[dependencies]
clap = { version = "4", features = ["derive"] }
swc_common = "*"
swc_ecma_ast = "*"
swc_ecma_parser = "*"
