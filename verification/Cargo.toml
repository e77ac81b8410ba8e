[package]
name = "opensesame"
version = "0.1.0"
edition = "2021"
publish = false

[dependencies]
bme280 = "0.3"
chrono = "=0.4.45"
elektra = "*"
futures = "=0.3.34"
gettext-rs = "=0.7.7"
gpio-cdev = "0.5"
i2cdev = "=0.6.2"
libmodbus = "*"
linux-embedded-hal = "0.3"
mlx9061x = "0.2"
nix = "0.26"
reqwest = { version = "0.11", default-features = false, features = ["json", "rustls-tls"] }
serde = { version = "1", features = ["derive"] }
serde_json = "1"
sunrise = "=1.2.1"
systemstat = "=0.2.7"
tokio = { version = "=1.54.1", features = ["rt-multi-thread", "macros", "sync", "time", "process", "fs", "io-util", "signal"] }
tokio-util = "0.7"
