[package]
name = "pasir"
version = "0.1.0"
edition = "2021"
publish = false

[dependencies]
tokio = { version = "1", features = ["sync", "rt-multi-thread", "macros", "net", "time", "signal"] }
hyper = { version = "1", features = ["http1", "server"] }
hyper-util = { version = "0.1", features = ["server", "server-auto", "tokio", "service"] }
http-body-util = "0.1"
bytes = "1"
ext-php-rs = "*"
