[package]
name = "rust_mc_serv"
version = "0.1.0"
edition = "2021"
publish = false

[dependencies]
rust_mc_proto = "=0.1.19"
flate2 = "=1.1.10"
uuid = { version = "=1.29.0", features = ["v3"] }
dashmap = "=6.2.1"
itertools = "=0.15.0"
serde = { version = "=1.0.229", features = ["derive"] }
serde_json = "=1.0.154"
serde_with = "=3.24.0"
serde_default = "=0.2.0"
toml = "=1.1.8"
log = "=0.4.34"
colog = "=1.4.0"
palette = "=0.7.7"
craftflow-nbt = "=2.1.0"
fastnbt = "=2.6.3"
ignore-result = "=0.2.0"
enum_index = "=0.2.0"
enum_index_derive = "=0.2.0"
