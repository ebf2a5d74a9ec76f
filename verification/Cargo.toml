[package]
name = "feedgraph"
version = "0.1.0"
edition = "2021"
publish = false

[dependencies]
polars = { version = "=0.44.2", default-features = false, features = ["lazy", "parquet", "ipc", "fmt", "cov", "rank", "propagate_nans", "cross_join", "streaming", "dtype-i16"] }
serde = { version = "=1.0.229", features = ["derive"] }
serde_json = "=1.0.151"
