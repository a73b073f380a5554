[package]
name = "spider_core"
version = "0.1.0"
edition = "2021"
publish = false

[dependencies]
parking_lot = "0.12"
thiserror = "1"
tracing = "0.1"
