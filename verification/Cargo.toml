[package]
name = "thermo_alarm"
version = "0.1.0"
edition = "2021"
publish = false

[dependencies]
avr-device = { version = "=0.5.4", features = ["atmega328p", "rt"] }
ds18b20 = "=0.1.1"
embedded-hal = "=0.2.7"
one-wire-bus = "=0.1.1"
ufmt = "=0.1.2"
