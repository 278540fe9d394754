[package]
name = "weather_station"
version = "0.1.0"
edition = "2021"
publish = false

[dependencies]
time = { version = "=0.3.55", default-features = false }
embassy-sync = { version = "=0.8.0" }
embassy-time = { version = "=0.5.1", features = ["std"] }
embassy-executor = { version = "=0.10.0" }
log = { version = "=0.4.34" }
static_cell = { version = "=2.1.1" }
fugit = { version = "=0.6.0" }
uom = { version = "=0.38.0", default-features = false, features = ["f32", "si"] }
embedded-hal = { version = "=1.0.0" }
embedded-hal-async = { version = "=1.0.0" }
embedded-hal-bus = { version = "*", features = ["async"] }
embassy-embedded-hal = { version = "*" }
esp-hal = { version = "*", features = ["esp32c3", "unstable"] }
esp-backtrace = { version = "*", features = ["esp32c3", "panic-handler", "println"] }
esp-println = { version = "*", features = ["esp32c3", "log-04"] }
rtt-target = { version = "*" }
bme280-rs = { version = "*" }
embedded-ccs811 = { version = "*" }
embedded-hdc1080-rs = { version = "*" }
sgp30 = { version = "*" }
