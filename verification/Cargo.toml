[package]
name = "limux"
version = "0.1.0"
edition = "2021"
publish = false

[dependencies]
gtk4 = "0.9"
libadwaita = "0.7"
pangocairo = "0.20"
libc = "0.2"
rustix = { version = "0.38", features = ["pty", "process", "fs"] }
