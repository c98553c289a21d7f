[package]
name = "rss_viewer"
version = "0.1.0"
edition = "2021"
publish = false

[dependencies]
actix-web = { version = "4", default-features = false, features = ["macros"] }
chrono = { version = "0.4", default-features = false, features = ["std"] }
derive_more = { version = "2", features = ["display", "error"] }
lazy_static = "1"
reqwest = { version = "0.12", default-features = false, features = ["rustls-tls"] }
rss = { version = "2", default-features = false }
serde = { version = "1", features = ["derive"] }
tera = { version = "1", default-features = false }
