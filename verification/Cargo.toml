[package]
name = "bookmark_sync"
version = "0.1.0"
edition = "2021"
publish = false

[dependencies]
dogear = "=0.5.0"
