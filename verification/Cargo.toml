[package]
name = "esp_embassy_wifihelper"
version = "0.1.0"
edition = "2021"
publish = false

[dependencies]
defmt = "=1.2.0"
embassy-executor = "=0.10.0"
embassy-net = { version = "=0.9.1", features = ["dhcpv4", "dns", "tcp", "proto-ipv4", "medium-ethernet"] }
embassy-sync = "=0.8.0"
embassy-time = "=0.5.1"
esp-hal = { version = "=1.0.0", default-features = false, features = ["esp32c3", "unstable"] }
esp-radio = { version = "=0.17.0", features = ["esp32c3", "wifi"] }
esp-wifi-sys = { version = "*", features = ["esp32c3"] }
log = "=0.4.34"

[dev-dependencies]
critical-section = { version = "1", features = ["std"] }
