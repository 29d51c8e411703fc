[package]
name = "printer_service"
version = "0.1.0"
edition = "2021"
publish = false

[dependencies]
auto-launch = "0.5"
image = { version = "0.25", default-features = false }
qrcode = { version = "0.14", default-features = false, features = ["image"] }
rocket = { version = "0.5", features = ["json"] }
rusb = "0.9"
serde = { version = "1", features = ["derive"] }
