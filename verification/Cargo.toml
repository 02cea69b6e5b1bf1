[package]
name = "chatimpl"
version = "0.1.0"
edition = "2021"
publish = false

[dependencies]
rustpython-parser = "=0.3.1"
clap = { version = "=4.6.7", features = ["derive", "env"] }
chatgpt_rs = "=1.2.3"
tokio = { version = "=1.53.2", features = ["macros", "rt-multi-thread"] }
regex = "=1.13.1"
lazy_static = "=1.5.1"
