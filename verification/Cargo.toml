[package]
name = "encounter_meter"
version = "0.1.0"
edition = "2021"
publish = false

[dependencies]
hashbrown = { version = "0.14", features = ["serde"] }
rusqlite = { version = "0.29", features = ["bundled"] }
serde = { version = "1", features = ["derive"] }
serde_json = "1"
window-vibrancy = "0.4"
