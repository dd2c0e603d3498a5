[package]
name = "student_management"
version = "0.1.0"
edition = "2021"
publish = false

[dependencies]
regex = "1"
serde = { version = "1", features = ["derive"] }
serde_json = "1"
quick-xml = { version = "*", features = ["serialize"] }
rusqlite = { version = "*", features = ["bundled"] }
chrono = "0.4"
