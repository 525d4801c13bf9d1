[package]
name = "media_session"
version = "0.1.0"
edition = "2021"
publish = false

[dependencies]
async-trait = "0.1"
mpris = "2"
serde = { version = "1", features = ["derive"] }
tokio = { version = "1", features = ["macros", "rt", "signal", "time"] }
windows = { version = "0.58", features = ["Foundation", "Foundation_Collections", "Media_Control"] }
