[package]
name = "auric"
version = "0.1.0"
edition = "2021"
publish = false

[dependencies]
anyhow = "1"
chrono = { version = "0.4", default-features = false, features = ["clock", "std"] }
crossterm = "0.28"
dirs = "5"
image = { version = "0.25", default-features = false, features = ["jpeg", "png"] }
lofty = "0.22"
ratatui = "0.29"
ratatui-image = { version = "8", default-features = false, features = ["crossterm"] }
rusqlite = { version = "0.32", features = ["bundled"] }
rustfft = "6"
serde = { version = "1", features = ["derive"] }
symphonia = "0.5"
tokio = { version = "1", features = ["rt-multi-thread", "macros", "sync", "time"] }
uuid = { version = "1", features = ["v4"] }
