[package]
name = "tex_template"
version = "0.1.0"
edition = "2021"
publish = false

[dependencies]
serde = { version = "=1.0.229", features = ["derive"] }
serde_json = "=1.0.154"
texcore = { version = "=0.3.3", default-features = false }
