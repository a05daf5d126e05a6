[package]
name = "mail_relay"
version = "0.1.0"
edition = "2021"
publish = false

[dependencies]
amqprs = "=2.1.5"
dotenvy = "=0.15.7"
envy = "=0.4.2"
json = "=0.12.4"
lettre = "=0.11.23"
serde = { version = "=1.0.229", features = ["derive"] }
tokio = { version = "=1.54.1", features = ["macros", "rt-multi-thread", "signal", "sync", "time"] }
