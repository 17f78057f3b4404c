[package]
name = "rustiq"
version = "0.1.0"
edition = "2021"
publish = false

[dependencies]
anyhow = "1"
arboard = { version = "3", default-features = false }
chrono = { version = "0.4", features = ["serde"] }
crossterm = "0.28"
git2 = { version = "0.19", default-features = false }
libc = "0.2"
ratatui = "0.29"
serde = { version = "1", features = ["derive"] }
serde_json = "1"
sha2 = "0.10"
syntect = { version = "5", default-features = false, features = ["default-fancy"] }
uuid = { version = "1", features = ["v4", "serde"] }
