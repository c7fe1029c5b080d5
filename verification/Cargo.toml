[package]
name = "foxy_views"
version = "0.1.0"
edition = "2021"
publish = false

[dependencies]
arboard = { version = "=3.7.0", default-features = false }
chrono = "=0.4.45"
dirs = "=7.0.0"
eframe = { version = "=0.37.0", default-features = false, features = ["default_fonts", "glow", "x11"] }
image = { version = "=0.25.10", default-features = false, features = ["png"] }
log = "*"
rfd = { version = "=0.17.2", default-features = false, features = ["xdg-portal"] }
serde = { version = "*", features = ["derive"] }
serde_json = "=1.0.154"
tokio = { version = "=1.54.1", features = ["rt-multi-thread"] }
zip = { version = "=9.2.2", default-features = false, features = ["deflate"] }
