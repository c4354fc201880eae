[package]
name = "md2pdf-rs"
version = "0.1.0"
edition = "2021"
publish = false

[dependencies]
chrono = "0.4"
clap = { version = "4", features = ["derive"] }
pulldown-cmark = { version = "0.13", default-features = false }
serde = { version = "1", features = ["derive"] }
serde_yaml = "0.9"
thiserror = "2"
typst = "0.14"
typst-assets = { version = "0.14", features = ["fonts"] }
typst-pdf = "0.14"
