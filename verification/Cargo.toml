[package]
name = "store_pipeline"
version = "0.1.0"
edition = "2021"
publish = false

[dependencies]
url = "2"
object_store = { version = "*", features = ["aws", "azure", "gcp"] }
futures = "0.3"
tokio = { version = "1", features = ["macros", "rt-multi-thread"] }
