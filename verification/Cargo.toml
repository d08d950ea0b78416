[package]
name = "variant_reviews"
version = "0.1.0"
edition = "2021"
publish = false

[dependencies]
anyhow = "1"
clap = { version = "4", features = ["derive"] }
convert_case = "*"
csv = "1"
dotenv = "0.15"
serde = { version = "1", features = ["derive"] }
serde_json = "1"
shopify_api = "*"
tokio = { version = "1", features = ["macros", "rt-multi-thread"] }
