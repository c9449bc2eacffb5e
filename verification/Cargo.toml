[package]
name = "windows_browser_decrypt"
version = "0.1.0"
edition = "2021"
publish = false

[dependencies]
aes-gcm = "*"
base64 = "*"
serde_json = "*"
rusqlite = { version = "*", features = ["bundled"] }
tempfile = "*"
walkdir = "*"
dirs = "*"
windows = { version = "*", features = ["Win32_Foundation", "Win32_Security_Cryptography"] }
