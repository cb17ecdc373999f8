[package]
name = "backfill_filter"
version = "0.1.0"
edition = "2021"
publish = false

[dependencies]
bs58 = "=0.5.1"
clap = { version = "=4.5.61", default-features = false, features = ["derive", "std", "help"] }
futures-util = { version = "*", default-features = false, features = ["std", "alloc"] }
tokio = { version = "*", default-features = false, features = ["rt-multi-thread"] }

[dev-dependencies]
serde_json = "=1.0.151"
