[package]
name = "vscode_ssh"
version = "0.1.0"
edition = "2021"
publish = false

[dependencies]
enum_dispatch = "0.3"
serde = { version = "1", features = ["derive"] }
