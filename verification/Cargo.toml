[package]
name = "pouetpouet"
version = "0.1.0"
edition = "2021"
publish = false

[dependencies]
smart-leds = "=0.3.0"
ws2812-spi = "=0.4.0"
embedded-hal = "=0.2.7"
usb-device = "=0.2.9"
cortex-m = "=0.7.10"
cortex-m-rtic = "=0.5.9"
panic-halt = "=0.2.0"
generic-array = "=0.13.3"
stm32f0xx-hal = { version = "=0.18.0", features = ["stm32f072", "stm32-usbd", "rt"] }
keyberon = "=0.1.1"
