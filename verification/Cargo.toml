[package]
name = "now_playing"
version = "0.1.0"
edition = "2021"
publish = false

[dependencies]
attohttpc = "*"
directories = "*"
druid = { version = "0.8", features = ["image", "png", "jpeg", "svg"] }
mpris = "*"
serde = { version = "1", features = ["derive"] }
serde_yaml = "*"
