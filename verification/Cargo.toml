[package]
name = "egui-miniquad"
version = "0.16.0"
edition = "2021"
publish = false

[dependencies]
bytemuck = "=1.25.2"
egui = { version = "=0.31.1", features = ["bytemuck"] }
miniquad = "=0.4.11"
quad-url = "=0.1.3"
copypasta = "=0.10.2"
quad-rand = "=0.2.3"
getrandom = { version = "0.2", features = ["custom"] }
