[package]
name = "webhook_relay"
version = "0.1.0"
edition = "2021"
publish = false

[dependencies]
actix-web = "4"
dotenv = "0.15"
poise = "0.5"
serde = { version = "1", features = ["derive"] }
serenity = "0.11"
tokio = { version = "1", features = ["macros", "rt-multi-thread"] }
