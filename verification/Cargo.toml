[package]
name = "script_bridge"
version = "0.1.0"
edition = "2021"
publish = false

[dependencies]
futures = "0.3.9"
lazy_static = "1.4.0"
rusty_v8 = "0.16.0"
url = "2.2.0"
