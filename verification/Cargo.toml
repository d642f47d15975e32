[package]
name = "nutriplan_db_sqlite"
version = "0.1.0"
edition = "2021"
publish = false

[dependencies]
chrono = { version = "0.4", default-features = false, features = ["std"] }
diesel = { version = "1.4", features = ["sqlite", "r2d2"] }
dotenv = "0.15"
log = "0.4"
