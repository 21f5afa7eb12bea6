[package]
name = "request_validation"
version = "0.1.0"
edition = "2021"
publish = false

[dependencies]
bytes = "1"
serde = { version = "1", features = ["derive"] }
serde_json = "1"
serde_path_to_error = "0.1"
tokio = { version = "1", features = ["macros", "rt-multi-thread"] }
validator = "0.16"
warp = "0.3"
