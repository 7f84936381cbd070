[package]
name = "jn_installer"
version = "0.1.0"
edition = "2021"
publish = false

[dependencies]
regex = "1"
reqwest = { version = "0.12", features = ["blocking", "json"] }
serde_json = "1"
zip = { version = "0.6", default-features = false, features = ["deflate"] }
fltk = "1"
lazy_static = "1"
const_format = "0.2"
