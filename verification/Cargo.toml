[package]
name = "ffbins_rs"
version = "0.1.0"
edition = "2021"
publish = false

[dependencies]
regex = "*"
reqwest = { version = "*", default-features = false, features = ["blocking", "json", "rustls-tls"] }
serde = { version = "*", features = ["derive"] }
sevenz-rust = { version = "*", features = ["compress"] }
tar = "*"
thiserror = "*"
xz2 = "*"
zip = { version = "*", default-features = false, features = ["deflate"] }
