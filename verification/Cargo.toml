[package]
name = "bulletin"
version = "0.1.0"
edition = "2021"
publish = false

[dependencies]
base91 = "=0.1.0"
teloxide = { version = "=0.12.2", default-features = false, features = ["rustls", "ctrlc_handler", "throttle"] }
tokio = { version = "*", features = ["macros", "rt-multi-thread", "time"] }
sqlx = { version = "=0.8.6", default-features = false, features = ["runtime-tokio", "sqlite", "migrate"] }
crossbeam = "*"
anyhow = "*"
chrono = "*"
clap = { version = "*", features = ["derive", "env"] }
log = "*"
simplelog = "*"
ctor = "*"
futures-util = "*"
takecell = "=0.1.1"
