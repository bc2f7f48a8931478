[package]
name = "conn_pool"
version = "0.1.0"
edition = "2021"
publish = false

[dependencies]
redis = { version = "=0.28.2", features = ["tokio-comp"] }
mobc = "=0.9.0"
mobc-redis = "=0.9.0"
tokio = { version = "=1.54.1", features = ["macros", "rt-multi-thread", "sync", "time"] }
warp = { version = "=0.4.3", features = ["server"] }
thiserror = "=2.0.21"
