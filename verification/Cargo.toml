[package]
name = "status_panel"
version = "0.1.0"
edition = "2021"
publish = false

[dependencies]
heapless = "=0.8.0"
embedded-graphics = "=0.8.2"
epd-waveshare = "=0.6.0"
embedded_font = "=0.1.3"
rusttype = "=0.9.3"
serde = { version = "=1.0.229", features = ["derive"] }
serde_json = "=1.0.154"
serde_cow = "=0.1.2"
aformat = "=0.1.8"
reqwless = "=0.13.0"
log = "=0.4.34"
bytemuck = "1"
const-random = "0.1"
static_cell = "2"
embedded-hal-bus = "*"
embassy-executor = "0.7"
embassy-net = { version = "0.6", features = ["dhcpv4", "dns", "tcp"] }
embassy-time = "0.4"
esp-alloc = "0.6"
esp-backtrace = { version = "0.15", features = ["esp32", "panic-handler", "println"] }
esp-hal = { version = "0.23", features = ["esp32"] }
esp-hal-embassy = { version = "0.6", features = ["esp32"] }
esp-println = { version = "0.13", features = ["esp32", "log"] }
esp-wifi = { version = "0.12", features = ["esp32", "wifi"] }
