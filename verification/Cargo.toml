[package]
name = "auth_directory"
version = "0.1.0"
edition = "2021"
publish = false

[dependencies]
wow_srp = "=0.7.0"
sqlx = { version = "=0.8.6", default-features = false, features = ["mysql", "runtime-tokio", "chrono", "derive"] }
actix-web = "=4.15.0"
actix-cors = "=0.7.2"
actix-web-httpauth = "=0.8.3"
async-graphql = "=7.2.1"
async-graphql-actix-web = "=7.2.1"
dotenv = "=0.15.0"
env_logger = "=0.11.11"
futures = "=0.3.34"
futures-util = "=0.3.34"
log = "=0.4.34"
