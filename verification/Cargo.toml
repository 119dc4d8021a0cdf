[package]
name = "rmk_ble"
version = "0.1.0"
edition = "2021"
publish = false

[dependencies]
defmt = "=0.3.101"
embassy-executor = "=0.5.1"
embassy-time = "=0.3.2"
embedded-hal = "=1.0.0"
embedded-storage = "=0.3.2"
nrf-softdevice = { version = "=0.1.0", features = ["s140", "nrf52840", "ble-peripheral", "ble-central", "ble-gatt-server"] }
sequential-storage = "=0.9.1"
