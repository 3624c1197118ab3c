[package]
name = "bob"
version = "0.1.0"
edition = "2021"
publish = false

[dependencies]
serenity = "0.11"
tokio = { version = "1", features = ["macros", "rt-multi-thread", "time"] }
diesel = { version = "1.4", features = ["postgres", "serde_json"] }
diesel_migrations = "1.4"
dotenv = "0.15"
log = "0.4"
pretty_env_logger = "0.4"
serde = { version = "1", features = ["derive"] }
serde_json = "1"
