[package]
name = "quick-translate"
version = "0.1.0"
edition = "2021"
publish = false

[dependencies]
anyhow = "1"
dirs = "5"
dotenv = "0.15"
gdk4 = "0.9"
gtk4 = "0.9"
ksni = { version = "0.3", features = ["blocking"] }
reqwest = { version = "0.12", features = ["json"] }
serde = { version = "1", features = ["derive"] }
tokio = { version = "1", features = ["rt-multi-thread"] }
