[package]
name = "dataset_store"
version = "0.1.0"
edition = "2021"
publish = false

[dependencies]
rmp-serde = "1"
rocksdb = { version = "0.22", default-features = false }
serde = "1"
storekey = "0.5"
thiserror = "1"

[dev-dependencies]
assert_fs = "1"
