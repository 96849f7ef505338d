[package]
name = "ext_deno"
version = "0.1.0"
edition = "2021"
publish = false

[dependencies]
anyhow = "=1.0.104"
futures = "=0.3.34"
tokio = { version = "=1.54.1", features = ["full"] }
deno_core = "=0.413.0"
ext-php-rs = "=0.16.3"
