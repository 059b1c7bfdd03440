[package]
name = "japanese_law_id"
version = "0.1.0"
edition = "2021"
publish = false

[dependencies]
kansuji = "*"
serde = { version = "1", features = ["derive"] }

[dev-dependencies]
regex = "1"
