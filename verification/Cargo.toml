[package]
name = "openai_responses"
version = "0.1.0"
edition = "2021"
publish = false

[dependencies]
serde = { version = "*", features = ["derive"] }
serde_json = "*"
serde_path_to_error = "*"
reqwest = { version = "0.12", default-features = false, features = ["json", "stream"] }
futures-util = "*"
