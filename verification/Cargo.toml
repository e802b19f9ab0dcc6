[package]
name = "cursive_flexi_logger_view"
version = "0.1.0"
edition = "2021"
publish = false

[dependencies]
arraydeque = "0.4"
cursive = { version = "0.21", default-features = false }
flexi_logger = { version = "0.29", default-features = false }
lazy_static = "1.5"
log = "0.4"
