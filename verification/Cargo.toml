[package]
name = "openstack"
version = "0.1.0"
edition = "2021"
publish = false

[dependencies]
chrono = { version = "0.4", default-features = false, features = ["std"] }
fallible-iterator = "0.1"
waiter = "0.1"
