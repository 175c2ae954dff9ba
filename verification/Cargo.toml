[package]
name = "non_empty_str"
version = "0.1.0"
edition = "2021"
publish = false

[dependencies]
non-empty-slice = "0.6.0"
non-empty-iter = "0.3.1"
non-zero-size = "=0.2.0"
thiserror = "=2.0.21"
serde = "=1.0.229"
