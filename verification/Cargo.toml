[package]
name = "mopidy_json_rpc"
version = "0.1.0"
edition = "2021"
publish = false

[dependencies]
reqwest = "0.11"
serde_json = "1"
tokio = { version = "1", features = ["macros", "rt-multi-thread"] }
