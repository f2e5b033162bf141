[package]
name = "golem_components"
version = "0.1.0"
edition = "2021"
publish = false

[dependencies]
anyhow = "=1.0.104"
golem-templates = { version = "=1.3.1", default-features = false }
itertools = "=0.14.0"
tokio = { version = "=1.54.1", default-features = false, features = ["fs"] }
uuid = "=1.29.0"
