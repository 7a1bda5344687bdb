[package]
name = "sandbox_pipeline"
version = "0.1.0"
edition = "2021"
publish = false

[dependencies]
tempfile = "3"
tokio = { version = "1", features = ["macros", "process", "rt-multi-thread"] }
