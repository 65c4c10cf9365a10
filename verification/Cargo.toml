[package]
name = "arr_backup"
version = "0.1.0"
edition = "2021"
publish = false

[dependencies]
zip = { version = "*", default-features = false, features = ["deflate"] }
ureq = { version = "*", features = ["json"] }
serde = { version = "*", features = ["derive"] }
time = { version = "*", features = ["serde-well-known", "parsing", "formatting"] }
