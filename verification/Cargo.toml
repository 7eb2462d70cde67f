[package]
name = "student_portal"
version = "0.1.0"
edition = "2021"
publish = false

[dependencies]
anyhow = "1"
dotenv = "0.15"
headless_chrome = "1"
tokio = { version = "1", features = ["macros", "rt-multi-thread", "time"] }
