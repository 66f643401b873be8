[package]
name = "sobaken"
version = "0.1.0"
edition = "2021"
publish = false

[dependencies]
rand = "=0.8.8"
takecell = "=0.1.1"
teloxide = { version = "=0.12.2", features = ["macros"] }
tokio = { version = "=1.44.2", features = ["macros", "rt-multi-thread", "time"] }
log = "=0.4.34"
pretty_env_logger = "=0.5.0"
dptree = "=0.3.0"
