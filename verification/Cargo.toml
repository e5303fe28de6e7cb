[package]
name = "esp_idf_spi"
version = "0.1.0"
edition = "2021"
publish = false

[dependencies]
embedded-hal = "=1.0.0-alpha.8"
esp-idf-sys = "0.31"
