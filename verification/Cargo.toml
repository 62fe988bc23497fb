[package]
name = "ingen_drm"
version = "0.1.0"
edition = "2021"
publish = false

[dependencies]
aes-gcm = "0.10"
ed25519-dalek = "2"
sha2 = "0.10"
rand = "*"
rand_chacha = "*"
glam = "*"
macroquad = "*"
clap = { version = "4", features = ["derive"] }
serde = { version = "1", features = ["derive"] }
serde_json = "1"
axum = "*"
tokio = { version = "1", features = ["macros", "rt-multi-thread", "net"] }
rusqlite = { version = "*", features = ["bundled"] }
