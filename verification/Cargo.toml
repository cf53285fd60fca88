[package]
name = "graphql_tag_transform"
version = "0.1.0"
edition = "2021"
publish = false

[dependencies]
apollo-parser = "*"
regex = "1"
swc_common = "*"
swc_core = { version = "*", default-features = false, features = ["common", "ecma_ast", "ecma_visit", "ecma_plugin_transform"] }
swc_ecma_ast = "*"
swc_ecma_visit = "*"
