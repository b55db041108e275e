# pouetpouet

The LED logic of the PouetPouet keyboard firmware, verified with Verus.

- `src/color.rs`: colors, the color cycle of the color key, and the brightness
  scaling done by `smart_leds::brightness`.
- `src/leds.rs`: the ten LEDs (four lock indicators, six backlight LEDs), the
  lock indicator updates and the start-up fade.
- `src/backlight.rs`: backlight modes, the mode, color, speed and brightness
  keys, and the per-tick refresh of the animations.
- `src/layout.rs`: the custom actions of the key map.
- `src/laws.rs`: properties that span several operations.
- `app/main.rs`: the firmware itself (hardware set-up, matrix scan, USB, LED
  driver), which sends what the library computes.
