[package]
name = "rusty_craft"
version = "0.1.0"
edition = "2021"
publish = false

[dependencies]
os_info = "*"
chrono = { version = "*", features = ["serde"] }
serde = { version = "*", features = ["derive"] }
serde_json = "*"
serde-xml-rs = "*"
reqwest = { version = "*", features = ["blocking"] }
directories = "*"
zip = "*"
tui = "*"
crossterm = "0.25"
tokio = { version = "*", features = ["rt-multi-thread"] }
sage_auth = "*"
uuid = { version = "*", features = ["v4"] }
