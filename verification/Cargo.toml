[package]
name = "xdg-desktop-portal-phosh"
version = "0.1.0"
edition = "2021"
publish = false

[dependencies]
ashpd = { version = "=0.13.13", default-features = false, features = ["account", "backend", "file_chooser", "tokio"] }
futures-util = "=0.3.34"
gettext-rs = "=0.8.0"
gtk4 = "=0.11.5"
libadwaita = "=0.9.2"
tokio = { version = "=1.54.1", features = ["rt-multi-thread", "sync"] }
