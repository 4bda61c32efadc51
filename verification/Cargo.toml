[package]
name = "autocommit"
version = "0.1.0"
edition = "2021"
publish = false

[dependencies]
git2 = { version = "*", default-features = false }
serde_json = "*"
reqwest = { version = "*", default-features = false, features = ["json"] }
tokio = { version = "*", features = ["rt", "macros"] }
dotenv = "*"

[dev-dependencies]
tempfile = "*"
