[package]
name = "rsvp"
version = "0.1.0"
edition = "2021"
publish = false

[dependencies]
html2text = "=0.17.4"
oxidize-pdf = "=5.5.1"
ttf-parser = "=0.25.1"
serde = { version = "=1.0.229", features = ["derive"] }
toml = "=1.1.8"
pollster = "=1.0.1"
rfd = { version = "=0.17.2", default-features = false, features = ["xdg-portal"] }
derive_more = { version = "=2.1.1", features = ["display"] }
iced = { version = "=0.14.0", default-features = false, features = ["tokio", "x11", "tiny-skia"] }
iced_aw = "=0.14.1"
