[package]
name = "devdoc"
version = "0.1.0"
edition = "2021"
publish = false

[dependencies]
color-eyre = "0.6"
directories = "*"
log = "0.4"
ratatui = "0.29"
reqwest = { version = "0.12", default-features = false }
tokio = { version = "1", features = ["rt-multi-thread", "macros"] }
zip = { version = "2", default-features = false }
