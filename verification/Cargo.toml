[package]
name = "auth_service"
version = "0.1.0"
edition = "2021"
publish = false

[dependencies]
bcrypt = "*"
uuid = { version = "1", features = ["v4"] }
actix-web = "4"
actix-rt = "2"
serde = { version = "1", features = ["derive"] }

[dev-dependencies]
regex = "1"
