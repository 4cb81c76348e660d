[package]
name = "eeprom_programmer"
version = "0.1.0"
edition = "2021"
publish = false

[dependencies]
dialoguer = { version = "0.10", default-features = false }
enum-iterator = "1"
indicatif = "0.17"
itertools = "0.10"
serialport = { version = "4.2", default-features = false }
thiserror = "1"
