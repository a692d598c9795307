[package]
name = "gl_painter"
version = "0.1.0"
edition = "2021"
publish = false

[dependencies]
gl = "0.14"
bytemuck = { version = "1", features = ["derive"] }
