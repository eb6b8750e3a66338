[package]
name = "pending_tracker"
version = "0.1.0"
edition = "2021"
publish = false

[dependencies]
async-trait = "=0.1.92"
parking_lot = "=0.12.5"
snarkvm = "=3.8.0"
tokio = { version = "=1.54.1", default-features = false, features = ["sync"] }

[dev-dependencies]
tokio = { version = "=1.54.1", default-features = false, features = ["rt", "rt-multi-thread", "sync"] }
