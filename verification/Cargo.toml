[package]
name = "midi_bridge"
version = "0.1.0"
edition = "2021"
publish = false

[dependencies]
rp-pico = "=0.9.0"
cortex-m = "=0.7.9"
cortex-m-rt = "=0.7.7"
embedded-hal = "=0.2.7"
usb-device = "=0.3.2"
usbd-midi = "=0.3.0"
