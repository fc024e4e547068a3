[package]
name = "esp-drv8833"
version = "0.1.0"
edition = "2021"
publish = false

[dependencies]
esp-hal = { version = "=1.0.0-beta.1", features = ["esp32c6", "unstable"] }
esp-println = { version = "=0.14.0", features = ["esp32c6"] }
