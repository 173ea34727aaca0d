[package]
name = "led_command"
version = "0.1.0"
edition = "2021"
publish = false

[dependencies]
serde = { version = "1", default-features = false, features = ["derive", "std"] }
defmt = "0.3"
ring_buffer = "*"

[dev-dependencies]
serde_json = { version = "1", features = ["preserve_order"] }
