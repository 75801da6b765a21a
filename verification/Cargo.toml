[package]
name = "expad"
version = "0.1.0"
edition = "2021"
publish = false

[dependencies]
usbd-midi = "*"
smart-leds = "*"
serde = { version = "1", default-features = false, features = ["derive"] }
serde-json-core = "*"
defmt = "*"
defmt-rtt = "*"
panic-probe = "*"
static_cell = "*"
embassy-executor = "*"
embassy-time = "*"
embassy-sync = "*"
embassy-futures = "*"
embassy-usb = "*"
embassy-rp = { version = "*", features = ["rp235xa", "time-driver"] }
embassy-net = { version = "*", features = ["tcp", "udp", "proto-ipv4", "medium-ethernet"] }
cyw43 = "*"
cyw43-pio = "*"
edge-dhcp = "*"
edge-nal = "*"
edge-nal-embassy = "*"
picoserve = { version = "*", features = ["embassy"] }
