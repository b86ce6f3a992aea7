[package]
name = "jensmemes"
version = "0.1.0"
edition = "2021"
publish = false

[dependencies]
askama = "0.10"
async-trait = "0.1"
axum = { version = "0.2", features = ["headers", "multipart"] }
headers = "0.3"
hyper = { version = "=0.14.32", features = ["full"] }
new_mime_guess = "=4.0.4"
reqwest = { version = "0.11", default-features = false, features = ["json", "multipart", "rustls-tls", "stream"] }
serde = { version = "1", features = ["derive"] }
sqlx = { version = "0.5", default-features = false, features = ["postgres", "runtime-tokio-rustls"] }
structopt = "0.3"
thiserror = "1"
tokio = { version = "1", features = ["macros", "rt-multi-thread"] }
toml = "0.5"
tower-http = { version = "0.1", features = ["add-extension", "set-header"] }
url = { version = "=2.5.8", features = ["serde"] }
urlencoding = "=2.1.3"
