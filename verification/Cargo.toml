[package]
name = "pico_button"
version = "0.1.0"
edition = "2021"
publish = false

[dependencies]
cyw43 = { version = "=0.1.0", features = ["defmt"] }
defmt = "=0.3.101"
defmt-rtt = "=0.4.2"
embassy-executor = { version = "=0.5.1", features = ["integrated-timers", "defmt"] }
embassy-futures = "=0.1.2"
embassy-net = { version = "=0.4.0", features = ["defmt", "tcp", "dns", "dhcpv4", "proto-ipv4", "medium-ethernet"] }
embassy-time = { version = "=0.3.2", features = ["defmt", "std"] }
panic-probe = { version = "=0.3.2", features = ["print-defmt"] }
rand = { version = "=0.8.8", default-features = false, features = ["small_rng"] }
reqwless = { version = "=0.11.0", default-features = false, features = ["defmt"] }
static_cell = "=2.1.1"
