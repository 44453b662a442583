[package]
name = "link_resolver"
version = "0.1.0"
edition = "2021"
publish = false

[dependencies]
url = "2"
urlencoding = "2"
regex = "1"
reqwest = { version = "0.12", default-features = false, features = ["blocking", "default-tls"] }
serde = { version = "1", features = ["derive"] }
serde_json = "1"
image = { version = "0.24", default-features = false, features = ["ico"] }
is_elevated = "0.1"
runas = "1"
winreg = "0.52"
