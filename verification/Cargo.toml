[package]
name = "scd30_monitor"
version = "0.1.0"
edition = "2021"
publish = false

[dependencies]
crc_all = "0.2"
cortex-m = "0.6"
cortex-m-rt = "0.6"
defmt = "0.1"
defmt-rtt = "0.1"
embedded-hal = "0.2"
nb = "1"
nrf52840-hal = "0.12"
panic-probe = { version = "0.1", features = ["print-defmt"] }
