[package]
name = "humidistat"
version = "0.1.0"
edition = "2021"
publish = false

[dependencies]
ciborium = { version = "=0.2.2", default-features = false }
display-interface = "=0.4.1"
embassy-executor = "=0.5.1"
embassy-futures = "=0.1.2"
embassy-net = { version = "=0.4.0", features = ["dhcpv4", "medium-ethernet", "proto-ipv4", "tcp"] }
embassy-sync = "=0.5.0"
embassy-time = "=0.3.2"
embedded-graphics = "=0.8.2"
embedded-hal = "=1.0.0"
embedded-hal-async = "=1.0.0"
embedded-hal-bus = "=0.1.0"
embedded-hdc1080-rs = "=0.1.0"
embedded-storage = "=0.3.2"
esp-alloc = "=0.3.0"
esp-backtrace = { version = "=0.11.1", features = ["exception-handler", "panic-handler"] }
esp-hal = { version = "=0.16.1", features = ["async", "eh1", "embassy", "embassy-executor-thread", "embassy-time-timg0", "esp32"] }
esp-println = { version = "=0.10.0", features = ["esp32", "log"] }
esp-storage = { version = "=0.3.1", features = ["esp32"] }
esp-wifi = { version = "=0.4.0", features = ["async", "embassy-net", "wifi"] }
fugit = "=0.3.9"
log = "=0.4.34"
picoserve = { version = "=0.10.3", features = ["alloc", "embassy"] }
sensor-temp-humidity-sht40 = "=0.2.601"
serde = { version = "=1.0.229", default-features = false, features = ["alloc", "derive"] }
serde_json = { version = "=1.0.154", default-features = false, features = ["alloc"] }
smoltcp = { version = "=0.11.0", default-features = false, features = ["medium-ethernet", "proto-ipv4"] }
spin = "=0.9.9"
ssd1306 = "=0.8.4"
