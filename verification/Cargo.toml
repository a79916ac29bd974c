[package]
name = "email_newsletter"
version = "0.1.0"
edition = "2021"
publish = false

[dependencies]
actix-web = { version = "*", default-features = false, features = ["macros"] }
chrono = { version = "*", default-features = false, features = ["clock"] }
config = { version = "*", default-features = false, features = ["yaml"] }
reqwest = { version = "*", default-features = false, features = ["json"] }
serde = { version = "*", features = ["derive"] }
sqlx = { version = "*", default-features = false, features = ["runtime-tokio", "postgres", "uuid", "chrono"] }
unicode-segmentation = "*"
uuid = { version = "*", features = ["v4"] }
validator = "*"
