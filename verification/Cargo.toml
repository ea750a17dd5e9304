[package]
name = "switrs_schema"
version = "0.1.0"
edition = "2021"
publish = false

[dependencies]
csv = "1"
new_string_template = "*"
rusqlite = "*"
serde = { version = "1", features = ["derive"] }
basic-toml = "*"
time = { version = "*", features = ["macros", "parsing"] }
derive_builder = "*"
