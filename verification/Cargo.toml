[package]
name = "airlinepro"
version = "0.1.0"
edition = "2021"
publish = false

[dependencies]
bcrypt = "*"
rand = "*"
uuid = { version = "1", features = ["v4"] }
sqlx = { version = "0.8", default-features = false, features = ["sqlite", "runtime-tokio"] }
tokio = { version = "1", features = ["macros", "rt-multi-thread", "time"] }
dotenv = "0.15"
rpassword = "7"
