[package]
name = "batch_mailer"
version = "0.1.0"
edition = "2021"
publish = false

[dependencies]
lettre = { version = "*", default-features = false, features = ["builder", "smtp-transport", "pool", "hostname", "rustls-tls"] }
rocket = { version = "0.5", features = ["json"] }
serde = { version = "*", features = ["derive"] }
serde_json = "*"
dotenv = "*"
