[package]
name = "manga_progress"
version = "0.1.0"
edition = "2021"
publish = false

[dependencies]
json = "*"
actix-web = "*"
actix-session = { version = "*", features = ["cookie-session"] }
futures = "*"
