//! Backlight and lock-indicator logic of the PouetPouet keyboard, a 60-key
//! keyboard with a strip of ten WS2812 LEDs: four lock indicators followed by
//! six backlight LEDs. The library decides what the LEDs show and which frame
//! goes out to the strip; the firmware sends it.
pub mod color;
pub mod leds;
pub mod backlight;
pub mod layout;
pub mod result_ext;
pub mod laws;
