[package]
name = "dsc_tg_forwarder"
version = "0.1.0"
edition = "2021"
publish = false

[dependencies]
anyhow = "=1.0.104"
clap = { version = "=4.6.7", features = ["derive"] }
home = "=0.5.12"
serde = { version = "=1.0.229", features = ["derive"] }
serde_yaml = "=0.9.34"
serenity = "=0.10.10"
takecell = "=0.1.1"
teloxide = { version = "=0.12.2", default-features = false, features = ["rustls"] }
tokio = { version = "=1.53.2", features = ["macros", "rt-multi-thread"] }
