use pouetpouet::backlight::{Backlight, BacklightMode};
use pouetpouet::color::{black, blue, green, red, violet, yellow, ColorSeq, Rgb8};
use pouetpouet::layout::CustomActions;
use pouetpouet::leds::Leds;

fn circling_at(b: &Backlight) -> (usize, usize, usize, bool) {
    match b.mode() {
        BacklightMode::Circling(_, period, step, position, forward) => (period, step, position, forward),
        other => panic!("not circling: {:?}", other),
    }
}

fn breath_at(b: &Backlight) -> (usize, usize, bool) {
    match b.mode() {
        BacklightMode::Breath(_, period, step, rising) => (period, step, rising),
        other => panic!("not breathing: {:?}", other),
    }
}

#[test]
fn new_backlight_is_off_at_level_8() {
    let b = Backlight::new();
    assert_eq!(b.mode(), BacklightMode::Off);
    assert_eq!(b.brightness(), 8);
}

#[test]
fn mode_key_cycles_through_four_modes() {
    let mut b = Backlight::new();
    b.next_mode();
    assert_eq!(b.mode(), BacklightMode::Solid(red()));
    b.next_mode();
    assert_eq!(b.mode(), BacklightMode::Circling(red(), 100, 0, 0, true));
    b.next_mode();
    assert_eq!(b.mode(), BacklightMode::Breath(red(), 10, 0, true));
    b.next_mode();
    assert_eq!(b.mode(), BacklightMode::Off);
    assert_eq!(b.brightness(), 8);
}

#[test]
fn mode_key_resets_color_and_parameters() {
    let mut b = Backlight::new();
    b.next_mode();
    b.next_color();
    b.next_color();
    assert_eq!(b.mode(), BacklightMode::Solid(blue()));
    b.next_mode();
    assert_eq!(b.mode(), BacklightMode::Circling(red(), 100, 0, 0, true));
}

#[test]
fn color_sequence_wraps_to_red() {
    assert_eq!(red().next_color(), green());
    assert_eq!(green().next_color(), blue());
    assert_eq!(blue().next_color(), violet());
    assert_eq!(violet().next_color(), yellow());
    assert_eq!(yellow().next_color(), red());
    assert_eq!(black().next_color(), red());
    assert_eq!(Rgb8 { r: 1, g: 2, b: 3 }.next_color(), red());
}

#[test]
fn color_key_changes_only_the_color() {
    let mut b = Backlight::new();
    b.next_color();
    assert_eq!(b.mode(), BacklightMode::Off);
    b.next_mode();
    b.next_mode();
    b.change_freq(true);
    b.next_color();
    assert_eq!(b.mode(), BacklightMode::Circling(green(), 90, 0, 0, true));
    b.next_mode();
    b.next_color();
    b.next_color();
    assert_eq!(b.mode(), BacklightMode::Breath(blue(), 10, 0, true));
}

#[test]
fn speed_keys_step_by_ten_within_bounds() {
    let mut b = Backlight::new();
    b.next_mode();
    b.change_freq(true);
    assert_eq!(b.mode(), BacklightMode::Solid(red()));
    b.next_mode();
    assert_eq!(circling_at(&b).0, 100);
    b.change_freq(true);
    assert_eq!(circling_at(&b).0, 90);
    b.change_freq(false);
    b.change_freq(false);
    assert_eq!(circling_at(&b).0, 110);
    for _ in 0..20 {
        b.change_freq(true);
    }
    assert_eq!(circling_at(&b).0, 10);
    for _ in 0..200 {
        b.change_freq(false);
    }
    assert_eq!(circling_at(&b).0, 1000);
    b.change_freq(true);
    assert_eq!(circling_at(&b).0, 990);
}

#[test]
fn speed_up_near_the_floor_goes_to_ten() {
    let mut b = Backlight::new();
    b.next_mode();
    b.next_mode();
    b.next_mode();
    assert_eq!(breath_at(&b).0, 10);
    b.change_freq(false);
    b.change_freq(false);
    assert_eq!(breath_at(&b).0, 30);
    b.change_freq(true);
    assert_eq!(breath_at(&b).0, 20);
    // 20 - 10 is not above 10: the period goes to the floor, 10.
    b.change_freq(true);
    assert_eq!(breath_at(&b).0, 10);
    b.change_freq(true);
    assert_eq!(breath_at(&b).0, 10);
}

#[test]
fn refresh_off_blacks_out_backlight_only() {
    let mut b = Backlight::new();
    let mut leds = Leds::filled(yellow());
    let frame = b.refresh_leds(&mut leds);
    assert_eq!(b.mode(), BacklightMode::Off);
    for i in 0..4 {
        assert_eq!(leds.leds[i], yellow());
    }
    for i in 4..10 {
        assert_eq!(leds.leds[i], black());
    }
    // Yellow at level 8: 255 * 9 / 256 = 8.
    assert_eq!(frame[0], Rgb8 { r: 8, g: 8, b: 0 });
    assert_eq!(frame[9], black());
}

#[test]
fn refresh_solid_paints_backlight() {
    let mut b = Backlight::new();
    b.next_mode();
    let mut leds = Leds::new();
    let frame = b.refresh_leds(&mut leds);
    for i in 0..4 {
        assert_eq!(leds.leds[i], black());
    }
    for i in 4..10 {
        assert_eq!(leds.leds[i], red());
        assert_eq!(frame[i], Rgb8 { r: 8, g: 0, b: 0 });
    }
    assert_eq!(b.brightness(), 8);
}

#[test]
fn circling_moves_one_place_per_period() {
    let mut b = Backlight::new();
    b.next_mode();
    b.next_mode();
    let mut leds = Leds::new();
    b.refresh_leds(&mut leds);
    // Position 0 lights the last backlight LED.
    assert_eq!(circling_at(&b), (100, 1, 0, true));
    assert_eq!(leds.leds[9], red());
    for i in 4..9 {
        assert_eq!(leds.leds[i], black());
    }
    for _ in 0..98 {
        b.refresh_leds(&mut leds);
    }
    assert_eq!(circling_at(&b), (100, 99, 0, true));
    b.refresh_leds(&mut leds);
    assert_eq!(circling_at(&b), (100, 0, 1, true));
    assert_eq!(leds.leds[4], red());
    for i in 5..10 {
        assert_eq!(leds.leds[i], black());
    }
}

#[test]
fn circling_bounces_at_both_ends() {
    let mut b = Backlight::new();
    b.next_mode();
    b.next_mode();
    for _ in 0..9 {
        b.change_freq(true);
    }
    assert_eq!(circling_at(&b).0, 10);
    let mut leds = Leds::new();
    let mut positions = Vec::new();
    for _ in 0..16 {
        for _ in 0..10 {
            b.refresh_leds(&mut leds);
        }
        let (_, _, position, forward) = circling_at(&b);
        positions.push((position, forward));
    }
    assert_eq!(
        positions,
        vec![
            (1, true), (2, true), (3, true), (4, true), (5, true), (6, true), (6, false),
            (5, false), (4, false), (3, false), (2, false), (1, false), (0, false), (0, true),
            (1, true), (2, true),
        ]
    );
}

#[test]
fn breathing_steps_brightness_each_period() {
    let mut b = Backlight::new();
    b.next_mode();
    b.next_mode();
    b.next_mode();
    let mut leds = Leds::new();
    for _ in 0..9 {
        b.refresh_leds(&mut leds);
        assert_eq!(leds.leds[5], black());
    }
    assert_eq!(b.brightness(), 8);
    let frame = b.refresh_leds(&mut leds);
    assert_eq!(b.brightness(), 9);
    assert_eq!(breath_at(&b), (10, 0, true));
    assert_eq!(leds.leds[5], red());
    // Red at level 9: 255 * 10 / 256 = 9.
    assert_eq!(frame[5], Rgb8 { r: 9, g: 0, b: 0 });
}

#[test]
fn breathing_turns_down_at_100_and_up_at_5() {
    let mut b = Backlight::new();
    let leds0 = Leds::new();
    for _ in 0..92 {
        b.on_custom_action(CustomActions::LightUp, &leds0);
    }
    assert_eq!(b.brightness(), 100);
    b.next_mode();
    b.next_mode();
    b.next_mode();
    let mut leds = Leds::new();
    for _ in 0..10 {
        b.refresh_leds(&mut leds);
    }
    assert_eq!(b.brightness(), 100);
    assert_eq!(breath_at(&b), (10, 0, false));
    for _ in 0..10 {
        b.refresh_leds(&mut leds);
    }
    assert_eq!(b.brightness(), 99);
    for _ in 0..94 {
        b.on_custom_action(CustomActions::LightDown, &leds0);
    }
    assert_eq!(b.brightness(), 5);
    for _ in 0..10 {
        b.refresh_leds(&mut leds);
    }
    assert_eq!(b.brightness(), 5);
    assert_eq!(breath_at(&b), (10, 0, true));
    for _ in 0..10 {
        b.refresh_leds(&mut leds);
    }
    assert_eq!(b.brightness(), 6);
}

#[test]
fn refresh_refused_when_breathing_below_zero() {
    let mut b = Backlight::new();
    let leds0 = Leds::new();
    for _ in 0..92 {
        b.on_custom_action(CustomActions::LightUp, &leds0);
    }
    b.next_mode();
    b.next_mode();
    b.next_mode();
    let mut leds = Leds::new();
    for _ in 0..10 {
        assert!(b.can_refresh());
        b.refresh_leds(&mut leds);
    }
    assert_eq!(breath_at(&b), (10, 0, false));
    for _ in 0..100 {
        b.on_custom_action(CustomActions::LightDown, &leds0);
    }
    assert_eq!(b.brightness(), 0);
    for _ in 0..9 {
        assert!(b.can_refresh());
        b.refresh_leds(&mut leds);
    }
    assert!(!b.can_refresh());
    b.next_mode();
    assert!(b.can_refresh());
}

#[test]
fn brightness_keys_clamp_and_send_frame() {
    let mut b = Backlight::new();
    let leds = Leds::filled(Rgb8 { r: 255, g: 128, b: 0 });
    let frame = b.on_custom_action(CustomActions::LightUp, &leds).unwrap();
    assert_eq!(b.brightness(), 9);
    // 255 * 10 / 256 = 9, 128 * 10 / 256 = 5.
    assert_eq!(frame[3], Rgb8 { r: 9, g: 5, b: 0 });
    for _ in 0..200 {
        b.on_custom_action(CustomActions::LightUp, &leds);
    }
    assert_eq!(b.brightness(), 100);
    let frame = b.on_custom_action(CustomActions::LightUp, &leds).unwrap();
    assert_eq!(b.brightness(), 100);
    // 255 * 101 / 256 = 100, 128 * 101 / 256 = 50.
    assert_eq!(frame[0], Rgb8 { r: 100, g: 50, b: 0 });
    for _ in 0..200 {
        b.on_custom_action(CustomActions::LightDown, &leds);
    }
    assert_eq!(b.brightness(), 0);
    let frame = b.on_custom_action(CustomActions::LightDown, &leds).unwrap();
    assert_eq!(b.brightness(), 0);
    // 255 * 1 / 256 = 0.
    assert_eq!(frame[0], black());
}

#[test]
fn other_keys_send_nothing() {
    let mut b = Backlight::new();
    let leds = Leds::new();
    assert!(b.on_custom_action(CustomActions::ModeCycle, &leds).is_none());
    assert_eq!(b.mode(), BacklightMode::Solid(red()));
    assert!(b.on_custom_action(CustomActions::ColorCycle, &leds).is_none());
    assert_eq!(b.mode(), BacklightMode::Solid(green()));
    assert!(b.on_custom_action(CustomActions::ModeCycle, &leds).is_none());
    assert!(b.on_custom_action(CustomActions::FreqUp, &leds).is_none());
    assert_eq!(circling_at(&b).0, 90);
    assert!(b.on_custom_action(CustomActions::FreqDown, &leds).is_none());
    assert!(b.on_custom_action(CustomActions::FreqDown, &leds).is_none());
    assert_eq!(circling_at(&b).0, 110);
    assert_eq!(b.brightness(), 8);
}
