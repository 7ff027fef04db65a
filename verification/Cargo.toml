[package]
name = "async_php"
version = "0.4.0"
edition = "2021"
publish = false

[dependencies]
base64 = "=0.22.1"
bytes = "=1.12.1"
cookie = "=0.18.2"
cookie_store = { version = "=0.21.1", default-features = false }
curl = "0.4"
ext-php-rs = "=0.13.1"
flume = "=0.11.1"
futures = "0.3"
http-body-util = "0.1"
hyper = { version = "1", features = ["server", "client", "http1", "http2"] }
hyper-util = { version = "0.1", features = ["tokio", "server", "server-auto", "http1", "http2"] }
reqwest = { version = "0.12", default-features = false, features = ["rustls-tls", "json", "cookies", "http2"] }
serde_json = "1"
sqlx = { version = "0.8", default-features = false, features = ["mysql", "postgres", "runtime-tokio"] }
tokio = { version = "=1.54.1", features = ["io-util", "rt", "sync", "time", "macros", "fs", "net"] }
url = "=2.5.8"
urlencoding = "=2.1.3"
