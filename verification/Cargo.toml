[package]
name = "forumrs"
version = "0.1.0"
edition = "2021"
publish = false

[dependencies]
uuid = { version = "=1.27.0", features = ["v4"] }
actix-web = "=3.3.3"
actix-files = "=0.5.0"
handlebars = "=4.5.0"
serde = { version = "=1.0.229", features = ["derive"] }
serde_json = "=1.0.151"
sha2 = "=0.10.9"
sqlx = { version = "=0.5.13", default-features = false, features = ["runtime-actix-rustls", "mysql", "postgres", "sqlite", "any"] }
