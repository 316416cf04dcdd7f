[package]
name = "music"
version = "0.1.0"
edition = "2021"
publish = false

[dependencies]
crossterm = "=0.29.0"
dirs = "=7.0.0"
image = { version = "=0.25.10", default-features = false, features = ["jpeg", "png"] }
lofty = "=0.25.5"
lru = "=0.19.0"
ratatui = "=0.30.2"
ratatui-image = { version = "=11.1.0", default-features = false, features = ["crossterm"] }
redb = "=4.4.0"
serde = { version = "=1.0.229", features = ["derive"] }
toml = "=1.1.8"
wincode = { version = "=0.6.3", features = ["derive"] }
