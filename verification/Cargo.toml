[package]
name = "ecs_sim"
version = "0.1.0"
edition = "2021"
publish = false

[dependencies]
rand = "0.8"
clap = { version = "4", features = ["derive"] }
crossterm = "0.27"
ratatui = "0.26"
threadpool = "1"
