//! Properties of the backlight and LED logic that span several operations.
use vstd::prelude::*;
use crate::color::{
    Rgb8, color_cycle, next_color_of, red_spec, green_spec, blue_spec, violet_spec, yellow_spec,
    black_spec,
};
use crate::backlight::{
    BacklightMode, next_mode_of, adjusted_period, freq_changed, refreshed_mode,
    refreshed_level, refreshed_leds, raised, lowered, mode_wf, recolored,
    refresh_underflows,
};

verus! {

/// The mode key cycles through four modes: after one press, four more presses
/// come back to exactly the same mode; from off, four presses give off again.
pub proof fn lemma_mode_cycle(m: BacklightMode)
    ensures
        next_mode_of(next_mode_of(next_mode_of(next_mode_of(next_mode_of(m))))) == next_mode_of(m),
        next_mode_of(next_mode_of(next_mode_of(next_mode_of(BacklightMode::Off)))) == BacklightMode::Off,
{
}

/// The color key always gives a color of the cycle, and five presses bring a
/// color of the cycle back to itself.
pub proof fn lemma_color_cycle(c: Rgb8)
    ensures
        color_cycle().contains(next_color_of(c)),
        color_cycle().contains(c) ==> next_color_of(
            next_color_of(next_color_of(next_color_of(next_color_of(c)))),
        ) == c,
        !color_cycle().contains(c) ==> next_color_of(c) == red_spec(),
{
    assert(color_cycle()[0] == red_spec());
    assert(color_cycle()[1] == next_color_of(red_spec()));
    assert(color_cycle()[2] == next_color_of(color_cycle()[1]));
    assert(color_cycle()[3] == next_color_of(color_cycle()[2]));
    assert(color_cycle()[4] == next_color_of(color_cycle()[3]));
    if color_cycle().contains(c) {
        let k = choose|k: int| 0 <= k < 5 && color_cycle()[k] == c;
        assert(0 <= k < 5 && color_cycle()[k] == c);
    } else {
        assert(c != color_cycle()[0]);
        assert(c != color_cycle()[1]);
        assert(c != color_cycle()[2]);
        assert(c != color_cycle()[3]);
        assert(c != color_cycle()[4]);
    }
}

/// The speed keys keep the period between 10 and 1000 ticks; speeding up never
/// lengthens it and slowing down never shortens it.
pub proof fn lemma_period_bounds(period: usize, up: bool)
    requires
        10 <= period <= 1000,
    ensures
        10 <= adjusted_period(period, up) <= 1000,
        up ==> adjusted_period(period, up) <= period,
        !up ==> adjusted_period(period, up) >= period,
{
}

/// Slowing down undoes speeding up for periods above 20 ticks, and speeding up
/// undoes slowing down for periods from 11 to 990 ticks; on the mode, the
/// other parameters are kept either way.
pub proof fn lemma_period_round_trip(m: BacklightMode)
    ensures
        m matches BacklightMode::Circling(_, p, _, _, _) && 20 < p <= 1000 ==> freq_changed(
            freq_changed(m, true),
            false,
        ) == m,
        m matches BacklightMode::Breath(_, p, _, _) && 20 < p <= 1000 ==> freq_changed(
            freq_changed(m, true),
            false,
        ) == m,
        m matches BacklightMode::Circling(_, p, _, _, _) && 10 < p <= 990 ==> freq_changed(
            freq_changed(m, false),
            true,
        ) == m,
        m matches BacklightMode::Breath(_, p, _, _) && 10 < p <= 990 ==> freq_changed(
            freq_changed(m, false),
            true,
        ) == m,
        m matches BacklightMode::Off ==> freq_changed(m, true) == m && freq_changed(m, false) == m,
        m matches BacklightMode::Solid(_) ==> freq_changed(m, true) == m && freq_changed(m, false)
            == m,
{
}

/// The brightness keys undo each other away from the ends of the range:
/// down then up restores levels from 1 to 100, up then down restores levels
/// from 0 to 99; neither goes above 100 from a level of at most 100.
pub proof fn lemma_brightness_round_trip(level: u8)
    requires
        level <= 100,
    ensures
        level > 0 ==> raised(lowered(level)) == level,
        level < 100 ==> lowered(raised(level)) == level,
        raised(level) <= 100,
        lowered(level) <= 100,
{
}

/// Breathing keeps a brightness between 5 and 100 within that range.
pub proof fn lemma_breath_stays_in_range(m: BacklightMode, level: u8)
    requires
        m is Breath,
        5 <= level <= 100,
    ensures
        5 <= refreshed_level(m, level) <= 100,
        refreshed_mode(m, level) is Breath,
{
}

/// Off and solid modes are fixed points of the refresh, and refreshing them a
/// second time paints the same colors again.
pub proof fn lemma_static_modes_fixed(m: BacklightMode, level: u8, leds: Seq<Rgb8>)
    requires
        m is Off || m is Solid,
    ensures
        refreshed_mode(m, level) == m,
        refreshed_level(m, level) == level,
        refreshed_leds(m, level, refreshed_leds(m, level, leds)) == refreshed_leds(m, level, leds),
{
    assert(refreshed_leds(m, level, refreshed_leds(m, level, leds)) =~= refreshed_leds(
        m,
        level,
        leds,
    ));
}

/// The backlight never touches the four lock indicators: whatever an
/// indicator was set to before a refresh, it shows after it.
pub proof fn lemma_refresh_keeps_indicators(
    m: BacklightMode,
    level: u8,
    leds: Seq<Rgb8>,
    i: int,
    c: Rgb8,
)
    requires
        leds.len() == 10,
        0 <= i < 4,
    ensures
        refreshed_leds(m, level, leds)[i] == leds[i],
        refreshed_leds(m, level, leds.update(i, c))[i] == c,
        refreshed_leds(m, level, leds).len() == 10,
{
}

/// Circling lights exactly one backlight LED with its color and blacks out the
/// five others.
pub proof fn lemma_circling_lights_one(m: BacklightMode, level: u8, leds: Seq<Rgb8>)
    requires
        m is Circling,
        mode_wf(m),
        leds.len() == 10,
    ensures
        ({
            let after = refreshed_leds(m, level, leds);
            let lit = 4 + crate::backlight::lit_led(refreshed_mode(m, level)->Circling_3);
            &&& 4 <= lit < 10
            &&& after[lit] == m->Circling_0
            &&& forall|j: int| 4 <= j < 10 && j != lit ==> after[j] == crate::color::black_spec()
        }),
{
}

/// The mode key goes from off to solid red, from solid to red circling (period
/// 100, starting forward at position 0), from circling to red breathing
/// (period 10, rising), and from any breathing, rising or falling, to off.
pub proof fn lemma_mode_key_transitions(m: BacklightMode)
    ensures
        m is Off ==> next_mode_of(m) == BacklightMode::Solid(red_spec()),
        m is Solid ==> next_mode_of(m) == BacklightMode::Circling(red_spec(), 100, 0, 0, true),
        m is Circling ==> next_mode_of(m) == BacklightMode::Breath(red_spec(), 10, 0, true),
        m is Breath ==> next_mode_of(m) == BacklightMode::Off,
        forall|c: Rgb8, p: usize, s: usize, d: bool|
            #[trigger] next_mode_of(BacklightMode::Breath(c, p, s, d)) == BacklightMode::Off,
{
}

/// The color key changes only the color: the kind of mode and every other
/// parameter (period, step, position, direction) stay as they were, and the
/// color becomes the next one of the cycle red, green, blue, violet, yellow.
pub proof fn lemma_color_key_changes_only_color(m: BacklightMode)
    ensures
        m is Off ==> recolored(m) == m,
        m matches BacklightMode::Solid(c) ==> recolored(m) is Solid && recolored(m)->Solid_0
            == next_color_of(c),
        m matches BacklightMode::Circling(c, p, s, pos, f) ==> {
            &&& recolored(m) is Circling
            &&& recolored(m)->Circling_0 == next_color_of(c)
            &&& recolored(m)->Circling_1 == p
            &&& recolored(m)->Circling_2 == s
            &&& recolored(m)->Circling_3 == pos
            &&& recolored(m)->Circling_4 == f
        },
        m matches BacklightMode::Breath(c, p, s, d) ==> {
            &&& recolored(m) is Breath
            &&& recolored(m)->Breath_0 == next_color_of(c)
            &&& recolored(m)->Breath_1 == p
            &&& recolored(m)->Breath_2 == s
            &&& recolored(m)->Breath_3 == d
        },
        next_color_of(red_spec()) == green_spec(),
        next_color_of(green_spec()) == blue_spec(),
        next_color_of(blue_spec()) == violet_spec(),
        next_color_of(violet_spec()) == yellow_spec(),
        next_color_of(yellow_spec()) == red_spec(),
{
}

/// A speed key changes only the period, by one press: color, step, position
/// and direction stay; the period gets 10 shorter (down to 10) or 10 longer
/// (up to 1000); off and solid modes do not change.
pub proof fn lemma_speed_key_changes_only_period(m: BacklightMode, up: bool)
    requires
        mode_wf(m),
    ensures
        m is Off || m is Solid ==> freq_changed(m, up) == m,
        m matches BacklightMode::Circling(c, p, s, pos, f) ==> {
            &&& freq_changed(m, up) is Circling
            &&& freq_changed(m, up)->Circling_0 == c
            &&& freq_changed(m, up)->Circling_2 == s
            &&& freq_changed(m, up)->Circling_3 == pos
            &&& freq_changed(m, up)->Circling_4 == f
            &&& up && p > 20 ==> freq_changed(m, up)->Circling_1 == p - 10
            &&& up && p <= 20 ==> freq_changed(m, up)->Circling_1 == 10
            &&& !up && p < 990 ==> freq_changed(m, up)->Circling_1 == p + 10
            &&& !up && p >= 990 ==> freq_changed(m, up)->Circling_1 == 1000
        },
        m matches BacklightMode::Breath(c, p, s, d) ==> {
            &&& freq_changed(m, up) is Breath
            &&& freq_changed(m, up)->Breath_0 == c
            &&& freq_changed(m, up)->Breath_2 == s
            &&& freq_changed(m, up)->Breath_3 == d
            &&& up && p > 20 ==> freq_changed(m, up)->Breath_1 == p - 10
            &&& up && p <= 20 ==> freq_changed(m, up)->Breath_1 == 10
            &&& !up && p < 990 ==> freq_changed(m, up)->Breath_1 == p + 10
            &&& !up && p >= 990 ==> freq_changed(m, up)->Breath_1 == 1000
        },
{
}

/// What a refresh paints on the backlight LEDs (4 to 9): black when off; the
/// mode's own color, whatever it is, when solid; when breathing, the mode's
/// color at the end of a period and the previous colors otherwise. Off and
/// solid keep mode and brightness.
pub proof fn lemma_refresh_paints_mode_color(m: BacklightMode, level: u8, leds: Seq<Rgb8>, i: int)
    requires
        leds.len() == 10,
        4 <= i < 10,
    ensures
        m is Off ==> refreshed_leds(m, level, leds)[i] == black_spec(),
        m matches BacklightMode::Solid(c) ==> refreshed_leds(m, level, leds)[i] == c,
        m matches BacklightMode::Breath(c, p, s, d) ==> (s + 1 >= p ==> refreshed_leds(
            m,
            level,
            leds,
        )[i] == c),
        m matches BacklightMode::Breath(c, p, s, d) ==> (s + 1 < p ==> refreshed_leds(
            m,
            level,
            leds,
        )[i] == leds[i]),
        m is Off || m is Solid ==> refreshed_mode(m, level) == m && refreshed_level(m, level)
            == level,
        forall|c: Rgb8|
            #[trigger] refreshed_leds(BacklightMode::Solid(c), level, leds)[i] == c,
{
}

/// A breathing refresh keeps color and period; it counts the step up until the
/// end of the period, where the step goes back to 0 and the brightness moves
/// one level in the breathing direction, turning at 100 and at 5.
pub proof fn lemma_breath_refresh(m: BacklightMode, level: u8)
    requires
        m is Breath,
        !refresh_underflows(m, level),
    ensures
        ({
            let r = refreshed_mode(m, level);
            let l = refreshed_level(m, level);
            let (c, p, s, d) = (m->Breath_0, m->Breath_1, m->Breath_2, m->Breath_3);
            &&& r is Breath && r->Breath_0 == c && r->Breath_1 == p
            &&& s + 1 < p ==> r->Breath_2 == s + 1 && r->Breath_3 == d && l == level
            &&& s + 1 >= p ==> r->Breath_2 == 0
            &&& s + 1 >= p && d && level < 100 ==> l == level + 1 && r->Breath_3
            &&& s + 1 >= p && d && level == 100 ==> l == 100 && !r->Breath_3
            &&& s + 1 >= p && !d && level != 5 ==> l == level - 1 && !r->Breath_3
            &&& s + 1 >= p && !d && level == 5 ==> l == 5 && r->Breath_3
        }),
{
}

/// A circling refresh keeps color and period; it counts the step up until the
/// end of the period, where the lit position moves one place in its direction
/// and the direction turns at positions 0 and 6.
pub proof fn lemma_circling_refresh(m: BacklightMode, level: u8)
    requires
        m is Circling,
        mode_wf(m),
    ensures
        ({
            let r = refreshed_mode(m, level);
            let (c, p, s, pos, f) = (
                m->Circling_0,
                m->Circling_1,
                m->Circling_2,
                m->Circling_3,
                m->Circling_4,
            );
            &&& r is Circling && r->Circling_0 == c && r->Circling_1 == p
            &&& refreshed_level(m, level) == level
            &&& s + 1 < p ==> r->Circling_2 == s + 1 && r->Circling_3 == pos && r->Circling_4 == f
            &&& s + 1 >= p ==> r->Circling_2 == 0
            &&& s + 1 >= p && f && pos < 6 ==> r->Circling_3 == pos + 1 && r->Circling_4
            &&& s + 1 >= p && f && pos == 6 ==> r->Circling_3 == 6 && !r->Circling_4
            &&& s + 1 >= p && !f && pos > 0 ==> r->Circling_3 == pos - 1 && !r->Circling_4
            &&& s + 1 >= p && !f && pos == 0 ==> r->Circling_3 == 0 && r->Circling_4
        }),
{
}

/// A refresh is refused only while breathing down at the end of a period with
/// a brightness of 0: it is allowed in every other mode, while breathing up
/// (where it raises the brightness, from 0 to 1 at the end of a period),
/// within a period, and at any brightness above 0.
pub proof fn lemma_refresh_refused_only_below_zero(m: BacklightMode, level: u8)
    ensures
        !(m is Breath) ==> !refresh_underflows(m, level),
        m matches BacklightMode::Breath(_, _, _, rising) ==> (rising ==> !refresh_underflows(
            m,
            level,
        )),
        level > 0 ==> !refresh_underflows(m, level),
        m matches BacklightMode::Breath(_, p, s, _) ==> (s + 1 < p ==> !refresh_underflows(
            m,
            level,
        )),
        forall|c: Rgb8, p: usize, s: usize|
            !#[trigger] refresh_underflows(BacklightMode::Breath(c, p, s, true), level),
        m matches BacklightMode::Breath(_, p, s, rising) ==> (rising && s + 1 >= p && level == 0
            ==> refreshed_level(m, level) == 1),
        refresh_underflows(m, level) ==> m is Breath && !m->Breath_3 && level == 0,
{
}

} // verus!
