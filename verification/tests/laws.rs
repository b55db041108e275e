use pouetpouet::backlight::{Backlight, BacklightMode};
use pouetpouet::color::{black, blue, green, red, violet, yellow, ColorSeq, Rgb8};
use pouetpouet::layout::CustomActions;
use pouetpouet::leds::Leds;

#[test]
fn four_mode_presses_return_to_the_same_mode() {
    let mut b = Backlight::new();
    b.next_mode();
    let after_one = b.mode();
    for _ in 0..4 {
        b.next_mode();
    }
    assert_eq!(b.mode(), after_one);
    let mut off = Backlight::new();
    for _ in 0..4 {
        off.next_mode();
    }
    assert_eq!(off.mode(), BacklightMode::Off);
}

#[test]
fn five_color_presses_return_to_the_same_color() {
    for c in [red(), green(), blue(), violet(), yellow()] {
        let mut n = c;
        for _ in 0..5 {
            n = n.next_color();
        }
        assert_eq!(n, c);
    }
    let odd = Rgb8 { r: 3, g: 3, b: 3 };
    assert_eq!(odd.next_color(), red());
}

#[test]
fn speed_keys_undo_each_other() {
    let mut b = Backlight::new();
    b.next_mode();
    b.next_mode();
    let before = b.mode();
    b.change_freq(true);
    b.change_freq(false);
    assert_eq!(b.mode(), before);
    b.change_freq(false);
    b.change_freq(true);
    assert_eq!(b.mode(), before);
}

#[test]
fn speed_keys_do_not_undo_each_other_at_the_floor() {
    let mut b = Backlight::new();
    b.next_mode();
    b.next_mode();
    b.next_mode();
    // Breathing starts at the shortest period, 10.
    b.change_freq(true);
    b.change_freq(false);
    assert_eq!(b.mode(), BacklightMode::Breath(red(), 20, 0, true));
}

#[test]
fn brightness_keys_undo_each_other() {
    let mut b = Backlight::new();
    let leds = Leds::new();
    b.on_custom_action(CustomActions::LightUp, &leds);
    b.on_custom_action(CustomActions::LightDown, &leds);
    assert_eq!(b.brightness(), 8);
    b.on_custom_action(CustomActions::LightDown, &leds);
    b.on_custom_action(CustomActions::LightUp, &leds);
    assert_eq!(b.brightness(), 8);
}

#[test]
fn breathing_stays_between_5_and_100() {
    let mut b = Backlight::new();
    b.next_mode();
    b.next_mode();
    b.next_mode();
    let mut leds = Leds::new();
    for _ in 0..5000 {
        b.refresh_leds(&mut leds);
        assert!(5 <= b.brightness() && b.brightness() <= 100);
    }
}

#[test]
fn static_modes_are_fixed_points() {
    let mut b = Backlight::new();
    b.next_mode();
    let mut leds = Leds::new();
    b.refresh_leds(&mut leds);
    let once = leds.leds;
    b.refresh_leds(&mut leds);
    assert_eq!(leds.leds, once);
    assert_eq!(b.mode(), BacklightMode::Solid(red()));
    assert_eq!(b.brightness(), 8);
}

#[test]
fn backlight_keeps_lock_indicators() {
    let mut b = Backlight::new();
    let mut leds = Leds::new();
    leds.caps_lock(true);
    leds.num_lock(true);
    leds.compose(true);
    for _ in 0..4 {
        b.next_mode();
        for _ in 0..30 {
            b.refresh_leds(&mut leds);
            assert_eq!(leds.leds[0], blue());
            assert_eq!(leds.leds[1], green());
            assert_eq!(leds.leds[2], black());
            assert_eq!(leds.leds[3], violet());
        }
    }
}

#[test]
fn circling_lights_exactly_one_backlight_led() {
    let mut b = Backlight::new();
    b.next_mode();
    b.next_mode();
    b.change_freq(true);
    let mut leds = Leds::new();
    for _ in 0..2000 {
        b.refresh_leds(&mut leds);
        let lit = (4..10).filter(|&i| leds.leds[i] == red()).count();
        let dark = (4..10).filter(|&i| leds.leds[i] == black()).count();
        assert_eq!((lit, dark), (1, 5));
    }
}
