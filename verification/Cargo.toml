[package]
name = "hli"
version = "0.1.0"
edition = "2021"
publish = false

[dependencies]
hl_core = "*"
ignore = "*"
reqwest = { version = "*", default-features = false, features = ["json"] }
select = "*"
serde = { version = "*", features = ["derive"] }
serde_json = "*"
tokio = { version = "*", features = ["macros", "rt-multi-thread"] }
