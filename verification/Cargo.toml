[package]
name = "reminder_vault"
version = "0.1.0"
edition = "2021"
publish = false

[dependencies]
base64 = "*"
secret-toolkit = { version = "*", features = ["crypto"] }
serde = { version = "*", features = ["derive"] }
sha2 = "*"
