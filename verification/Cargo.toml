[package]
name = "query_string_builder"
version = "0.1.0"
edition = "2021"
publish = false

[dependencies]
percent-encoding = "2"
