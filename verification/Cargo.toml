[package]
name = "petit_trad"
version = "0.1.0"
edition = "2021"
publish = false

[dependencies]
llama-cpp-2 = "*"
llama-cpp-sys-2 = "*"
encoding_rs = "*"
serde = { version = "*", features = ["derive"] }
toml = "*"
crossterm = "*"
ratatui = "*"
