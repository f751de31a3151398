[package]
name = "ropk"
version = "0.1.0"
edition = "2021"
publish = false

[dependencies]
defmt = "=1.2.0"
defmt-rtt = "=1.3.1"
embassy-executor = { version = "=0.9.1", features = ["arch-spin", "executor-thread", "defmt"] }
embassy-nrf = { version = "=0.11.0", features = ["nrf52840", "time-driver-rtc1", "gpiote", "unstable-pac", "defmt"] }
embassy-time = { version = "=0.5.1", features = ["defmt"] }
embassy-usb = { version = "=0.6.0", features = ["defmt"] }
panic-probe = { version = "=1.0.0", features = ["print-defmt"] }
static_cell = "=2.1.1"
