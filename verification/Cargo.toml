[package]
name = "tyo-mq-client"
version = "0.1.0"
edition = "2021"
publish = false

[dependencies]
rust_socketio = "0.6"
serde_json = "1"
