[package]
name = "sqlx_odbc"
version = "0.1.0"
edition = "2021"
publish = false

[dependencies]
sqlx-core = { version = "*", default-features = false, features = ["any"] }
odbc-api = "*"
futures-core = "*"
futures-util = "*"
log = "*"
url = "*"
chrono = "*"
uuid = "*"
bigdecimal = "*"
