[package]
name = "koch"
version = "0.1.0"
edition = "2021"
publish = false

[dependencies]
gl = "*"
glfw = "*"
rand = "0.8"
rust-animation = "*"
stretch = "*"
tokio = { version = "1", features = ["macros", "rt-multi-thread"] }
