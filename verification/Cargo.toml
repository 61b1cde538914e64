[package]
name = "eyemodelz"
version = "0.1.0"
edition = "2021"
publish = false

[dependencies]
heapless = "=0.8.0"
embedded-graphics = "=0.8.2"
num_enum = { version = "=0.7.6", default-features = false }
defmt = "=1.2.0"
defmt-rtt = "=1.3.1"
panic-probe = { version = "=1.0.0", features = ["print-defmt"] }
cortex-m = "=0.7.10"
static_cell = "=2.1.1"
tinyqoi = "=0.2.0"
lcd-async = "=0.1.3"
embassy-executor = { version = "=0.10.0", features = ["defmt"] }
embassy-rp = { version = "=0.10.0", features = ["rp235xa", "time-driver", "critical-section-impl", "defmt", "binary-info"] }
embassy-sync = { version = "=0.8.0", features = ["defmt"] }
embassy-time = { version = "=0.5.1", features = ["defmt", "defmt-timestamp-uptime"] }
embassy-embedded-hal = { version = "=0.6.0", features = ["defmt"] }
syn = { version = "=2.0.119", features = ["full"] }
quote = "=1.0.47"
proc-macro2 = "=1.0.107"
