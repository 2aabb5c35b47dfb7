[package]
name = "doctorate_manager"
version = "0.1.0"
edition = "2021"
publish = false

[dependencies]
chrono = { version = "0.4", default-features = false, features = ["clock", "std"] }
rand = "0.8"
serde = { version = "1", features = ["derive"] }
actix-web = { version = "4", default-features = false, features = ["macros"] }
sqlx = { version = "0.7", default-features = false, features = ["runtime-tokio", "mysql", "bigdecimal", "macros"] }
jsonwebtoken = { version = "8", default-features = false }
lettre = { version = "0.10", default-features = false, features = ["builder", "smtp-transport", "rustls-tls"] }
dotenv = "0.15"
bigdecimal = "0.3"
