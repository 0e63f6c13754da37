[package]
name = "systick_blink"
version = "0.1.0"
edition = "2021"
publish = false

[dependencies]
cortex-m = "0.7"
cortex-m-rt = "0.7"
embedded-hal = { version = "0.2", features = ["unproven"] }
rp-pico = "0.7"
defmt-rtt = "0.4"
panic-probe = { version = "0.3", features = ["print-defmt"] }
