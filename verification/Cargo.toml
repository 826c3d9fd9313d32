[package]
name = "custom_hid"
version = "0.1.0"
edition = "2021"
publish = false

[dependencies]
defmt = "=1.1.1"
defmt-rtt = "=1.3.0"
embedded-hal = "=1.0.0"
fugit = "=0.3.9"
panic-probe = "=1.0.0"
rp235x-hal = { version = "=0.4.0", features = ["binary-info", "critical-section-impl", "rt"] }
usb-device = "=0.3.2"
usbd-human-interface-device = "=0.6.1"
