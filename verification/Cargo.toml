[package]
name = "cloud-calc"
version = "0.1.0"
edition = "2021"
publish = false

[dependencies]
anyhow = "1"
argon2 = "0.5"
rand_core = { version = "0.6", features = ["getrandom"] }
sqlx = { version = "0.7", default-features = false, features = ["runtime-tokio", "postgres"] }
tokio = { version = "1", features = ["full"] }
meval = "0.2"
procfs = "0.16"
tracing = "0.1"
tracing-subscriber = "0.3"
thrussh = "0.34"
thrussh-keys = "0.22"
async-trait = "0.1"
