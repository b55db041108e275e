//! The backlight: a mode (off, solid, circling, breathing), its animation state,
//! and the global brightness level; the keys that change them; and the refresh
//! that advances the animation by one tick and paints the backlight LEDs.
use vstd::prelude::*;
use crate::color::{Rgb8, ColorSeq, next_color_of, black, black_spec, red, red_spec};
use crate::leds::{Leds, scaled};
use crate::layout::CustomActions;

verus! {

/// What the backlight LEDs show.
///
/// `Circling(color, period, step, position, forward)`: one LED lit at a time,
/// moving one place every `period` ticks, bouncing at both ends.
/// `Breath(color, period, step, rising)`: all backlight LEDs lit while the
/// brightness goes up and down by one every `period` ticks.
#[derive(Clone, Copy, Debug, PartialEq, Eq, Structural)]
pub enum BacklightMode {
    Off,
    Solid(Rgb8),
    Circling(Rgb8, usize, usize, usize, bool),
    Breath(Rgb8, usize, usize, bool),
}

/// The backlight state: its mode and the brightness level of the LED strip.
pub struct Backlight {
    mode: BacklightMode,
    brightness: u8,
}

/// Shortest animation period, in ticks.
pub open spec fn min_period() -> int {
    10
}

/// Longest animation period, in ticks.
pub open spec fn max_period() -> int {
    1000
}

/// Highest brightness level that the keys and the breathing reach.
pub open spec fn max_level() -> int {
    100
}

/// Lowest brightness level at which breathing turns back up.
pub open spec fn breath_floor() -> int {
    5
}

/// Last position of the circling animation (positions run from 0 to it).
pub open spec fn last_position() -> int {
    6
}

/// The animation parameters that the keys and the refresh keep within bounds.
pub open spec fn mode_wf(m: BacklightMode) -> bool {
    match m {
        BacklightMode::Off => true,
        BacklightMode::Solid(_) => true,
        BacklightMode::Circling(_, period, step, position, _) => {
            &&& min_period() <= period <= max_period()
            &&& step < max_period()
            &&& position <= last_position()
        },
        BacklightMode::Breath(_, period, step, _) => {
            &&& min_period() <= period <= max_period()
            &&& step < max_period()
        },
    }
}

/// The mode after the mode key: off, solid red, circling red, breathing red, off again.
pub open spec fn next_mode_of(m: BacklightMode) -> BacklightMode {
    match m {
        BacklightMode::Off => BacklightMode::Solid(red_spec()),
        BacklightMode::Solid(_) => BacklightMode::Circling(red_spec(), 100, 0, 0, true),
        BacklightMode::Circling(_, _, _, _, _) => BacklightMode::Breath(red_spec(), 10, 0, true),
        BacklightMode::Breath(_, _, _, _) => BacklightMode::Off,
    }
}

/// The animation period after a frequency key: ten ticks shorter (`up`) but not
/// below 10, or ten ticks longer but not above 1000.
pub open spec fn adjusted_period(period: usize, up: bool) -> usize {
    if up {
        if period - 10 > 10 {
            (period - 10) as usize
        } else {
            10
        }
    } else if period + 10 < 1000 {
        (period + 10) as usize
    } else {
        1000
    }
}

/// The mode after a frequency key: animated modes get an adjusted period,
/// the others are unchanged.
pub open spec fn freq_changed(m: BacklightMode, up: bool) -> BacklightMode {
    match m {
        BacklightMode::Breath(c, period, step, rising) => BacklightMode::Breath(
            c,
            adjusted_period(period, up),
            step,
            rising,
        ),
        BacklightMode::Circling(c, period, step, position, forward) => BacklightMode::Circling(
            c,
            adjusted_period(period, up),
            step,
            position,
            forward,
        ),
        _ => m,
    }
}

/// The mode after the color key: the color moves on in the color cycle; off stays off.
pub open spec fn recolored(m: BacklightMode) -> BacklightMode {
    match m {
        BacklightMode::Solid(c) => BacklightMode::Solid(next_color_of(c)),
        BacklightMode::Breath(c, period, step, rising) => BacklightMode::Breath(
            next_color_of(c),
            period,
            step,
            rising,
        ),
        BacklightMode::Circling(c, period, step, position, forward) => BacklightMode::Circling(
            next_color_of(c),
            period,
            step,
            position,
            forward,
        ),
        BacklightMode::Off => BacklightMode::Off,
    }
}

/// The mode after one refresh tick at brightness `level`.
pub open spec fn refreshed_mode(m: BacklightMode, level: u8) -> BacklightMode {
    match m {
        BacklightMode::Off => m,
        BacklightMode::Solid(_) => m,
        BacklightMode::Breath(c, period, step, rising) => {
            if step + 1 >= period {
                if rising {
                    BacklightMode::Breath(c, period, 0, level != max_level())
                } else {
                    BacklightMode::Breath(c, period, 0, level == breath_floor())
                }
            } else {
                BacklightMode::Breath(c, period, (step + 1) as usize, rising)
            }
        },
        BacklightMode::Circling(c, period, step, position, forward) => {
            if step + 1 >= period {
                if position == 0 && !forward {
                    BacklightMode::Circling(c, period, 0, 0, true)
                } else if position == last_position() && forward {
                    BacklightMode::Circling(c, period, 0, position, false)
                } else if forward {
                    BacklightMode::Circling(c, period, 0, (position + 1) as usize, forward)
                } else {
                    BacklightMode::Circling(c, period, 0, (position - 1) as usize, forward)
                }
            } else {
                BacklightMode::Circling(c, period, (step + 1) as usize, position, forward)
            }
        },
    }
}

/// The brightness level after one refresh tick: breathing moves it by one
/// each period, turning down at 100 and up at 5; other modes keep it.
pub open spec fn refreshed_level(m: BacklightMode, level: u8) -> u8 {
    match m {
        BacklightMode::Breath(_, period, step, rising) => {
            if step + 1 >= period {
                if rising {
                    if level == max_level() {
                        level
                    } else {
                        (level + 1) as u8
                    }
                } else if level == breath_floor() {
                    level
                } else {
                    (level - 1) as u8
                }
            } else {
                level
            }
        },
        _ => level,
    }
}

/// Whether a refresh would take the brightness below zero: breathing down,
/// at the end of a period, with the level already at 0 (which the brightness
/// keys can reach).
pub open spec fn refresh_underflows(m: BacklightMode, level: u8) -> bool {
    &&& m matches BacklightMode::Breath(_, period, step, rising)
    &&& step + 1 >= period
    &&& !rising
    &&& level == 0
}

/// The backlight LED that the circling animation lights at `position`
/// (counted from the first backlight LED): the one before it, or the last
/// one at position 0.
pub open spec fn lit_led(position: usize) -> int {
    if position == 0 {
        5
    } else {
        position - 1
    }
}

/// What backlight LED `i` (counted from the first backlight LED) shows after
/// a refresh of mode `m` that found it showing `shown`.
pub open spec fn backlight_led_after(m: BacklightMode, level: u8, i: int, shown: Rgb8) -> Rgb8 {
    match m {
        BacklightMode::Off => black_spec(),
        BacklightMode::Solid(c) => c,
        BacklightMode::Breath(c, period, step, _) => if step + 1 >= period {
            c
        } else {
            shown
        },
        BacklightMode::Circling(c, _, _, _, _) => {
            let position = refreshed_mode(m, level)->Circling_3;
            if i == lit_led(position) {
                c
            } else {
                black_spec()
            }
        },
    }
}

/// The LED colors after a refresh of mode `m`: the lock indicators keep their
/// colors, the backlight LEDs are painted by the mode.
pub open spec fn refreshed_leds(m: BacklightMode, level: u8, leds: Seq<Rgb8>) -> Seq<Rgb8> {
    Seq::new(
        leds.len(),
        |i: int|
            if i < 4 {
                leds[i]
            } else {
                backlight_led_after(m, level, i - 4, leds[i])
            },
    )
}

/// Brightness after the brightness-up key: one more, up to 100.
pub open spec fn raised(level: u8) -> u8 {
    if level == max_level() {
        level
    } else {
        (level + 1) as u8
    }
}

/// Brightness after the brightness-down key: one less, down to 0.
pub open spec fn lowered(level: u8) -> u8 {
    if level == 0 {
        level
    } else {
        (level - 1) as u8
    }
}

impl View for Backlight {
    type V = (BacklightMode, u8);

    closed spec fn view(&self) -> (BacklightMode, u8) {
        (self.mode, self.brightness)
    }
}

impl Backlight {
    /// The state kept by every operation: parameters in bounds and a
    /// brightness of at most 100.
    pub open spec fn wf(&self) -> bool {
        mode_wf(self@.0) && self@.1 <= max_level()
    }

    /// The backlight at power-on: off, brightness 8.
    pub fn new() -> (b: Backlight)
        ensures
            b@ == (BacklightMode::Off, 8u8),
            b.wf(),
    {
        Backlight { mode: BacklightMode::Off, brightness: 8 }
    }

    /// The current mode.
    pub fn mode(&self) -> (m: BacklightMode)
        ensures
            m == self@.0,
    {
        self.mode
    }

    /// The current brightness level.
    pub fn brightness(&self) -> (l: u8)
        ensures
            l == self@.1,
    {
        self.brightness
    }

    /// Steps to the next mode: off, solid, circling, breathing, off.
    pub fn next_mode(&mut self)
        requires
            old(self).wf(),
        ensures
            final(self)@ == (next_mode_of(old(self)@.0), old(self)@.1),
            final(self).wf(),
    {
        self.mode = match self.mode {
            BacklightMode::Off => BacklightMode::Solid(red()),
            BacklightMode::Solid(_) => BacklightMode::Circling(red(), 100, 0, 0, true),
            BacklightMode::Circling(_, _, _, _, _) => BacklightMode::Breath(red(), 10, 0, true),
            BacklightMode::Breath(_, _, _, _) => BacklightMode::Off,
        }
    }

    /// Makes an animation faster (`up`) or slower by ten ticks per step,
    /// within 10 to 1000 ticks; off and solid modes are unchanged.
    pub fn change_freq(&mut self, up: bool)
        requires
            old(self).wf(),
        ensures
            final(self)@ == (freq_changed(old(self)@.0, up), old(self)@.1),
            final(self).wf(),
    {
        self.mode = match self.mode {
            BacklightMode::Breath(c, tstep, step, dir) => {
                let tstep = if up {
                    if tstep - 10 > 10 {
                        tstep - 10
                    } else {
                        10
                    }
                } else if tstep + 10 < 1000 {
                    tstep + 10
                } else {
                    1000
                };
                BacklightMode::Breath(c, tstep, step, dir)
            },
            BacklightMode::Circling(c, tstep, step, i, dir) => {
                let tstep = if up {
                    if tstep - 10 > 10 {
                        tstep - 10
                    } else {
                        10
                    }
                } else if tstep + 10 < 1000 {
                    tstep + 10
                } else {
                    1000
                };
                BacklightMode::Circling(c, tstep, step, i, dir)
            },
            any => any,
        }
    }

    /// Moves the color of the current mode on in the color cycle.
    pub fn next_color(&mut self)
        requires
            old(self).wf(),
        ensures
            final(self)@ == (recolored(old(self)@.0), old(self)@.1),
            final(self).wf(),
    {
        self.mode = match self.mode {
            BacklightMode::Solid(c) => BacklightMode::Solid(c.next_color()),
            BacklightMode::Breath(c, tstep, step, dir) => {
                BacklightMode::Breath(c.next_color(), tstep, step, dir)
            },
            BacklightMode::Circling(c, ts, s, i, dir) => {
                BacklightMode::Circling(c.next_color(), ts, s, i, dir)
            },
            any => any,
        }
    }

    /// Whether `refresh_leds` can run: false only when breathing down would
    /// take a brightness of 0 below zero.
    pub fn can_refresh(&self) -> (ok: bool)
        requires
            self.wf(),
        ensures
            ok == !refresh_underflows(self@.0, self@.1),
    {
        match self.mode {
            BacklightMode::Breath(_, tstep, step, dir) => !(step + 1 >= tstep && !dir
                && self.brightness == 0),
            _ => true,
        }
    }
}

/// Paints every backlight LED with `c`, leaving the lock indicators alone.
fn paint_backlight(leds: &mut Leds, c: Rgb8)
    ensures
        final(leds)@ == Seq::new(10, |i: int| if i < 4 { old(leds)@[i] } else { c }),
{
    let mut i: usize = 4;
    while i < 10
        invariant
            4 <= i <= 10,
            leds@.len() == 10,
            forall|j: int| 0 <= j < 4 ==> #[trigger] leds@[j] == old(leds)@[j],
            forall|j: int| 4 <= j < i ==> #[trigger] leds@[j] == c,
        decreases 10 - i,
    {
        leds.leds[i] = c;
        i = i + 1;
    }
    assert(leds@ =~= Seq::new(10, |i: int| if i < 4 { old(leds)@[i] } else { c }));
}

/// Lights with `c` the backlight LED that the circling `position` selects and
/// blacks out the other backlight LEDs, leaving the lock indicators alone.
fn paint_circling(leds: &mut Leds, c: Rgb8, position: usize)
    ensures
        final(leds)@ == Seq::new(
            10,
            |i: int|
                if i < 4 {
                    old(leds)@[i]
                } else if i - 4 == lit_led(position) {
                    c
                } else {
                    black_spec()
                },
        ),
{
    let mut i: usize = 0;
    while i < 6
        invariant
            i <= 6,
            leds@.len() == 10,
            forall|j: int| 0 <= j < 4 ==> #[trigger] leds@[j] == old(leds)@[j],
            forall|j: int|
                4 <= j < i + 4 ==> #[trigger] leds@[j] == if j - 4 == lit_led(position) {
                    c
                } else {
                    black_spec()
                },
        decreases 6 - i,
    {
        let ni = if position == 0 {
            5
        } else {
            position - 1
        };
        if i == ni {
            leds.leds[4 + i] = c;
        } else {
            leds.leds[4 + i] = black();
        }
        i = i + 1;
    }
    assert(leds@ =~= Seq::new(
        10,
        |i: int|
            if i < 4 {
                old(leds)@[i]
            } else if i - 4 == lit_led(position) {
                c
            } else {
                black_spec()
            },
    ));
}

impl Backlight {
    /// Advances the animation by one tick, paints the backlight LEDs (the
    /// lock indicators keep their colors) and returns the frame to send, at
    /// the new brightness.
    pub fn refresh_leds(&mut self, leds: &mut Leds) -> (frame: [Rgb8; 10])
        requires
            old(self).wf(),
            !refresh_underflows(old(self)@.0, old(self)@.1),
        ensures
            final(self)@ == (
                refreshed_mode(old(self)@.0, old(self)@.1),
                refreshed_level(old(self)@.0, old(self)@.1),
            ),
            final(self).wf(),
            final(leds)@ == refreshed_leds(old(self)@.0, old(self)@.1, old(leds)@),
            frame@ == scaled(final(leds)@, final(self)@.1),
    {
        let ghost old_mode = self.mode;
        let ghost old_level = self.brightness;
        self.mode = match self.mode {
            BacklightMode::Off => {
                paint_backlight(leds, black());
                BacklightMode::Off
            },
            BacklightMode::Solid(c) => {
                paint_backlight(leds, c);
                BacklightMode::Solid(c)
            },
            BacklightMode::Breath(c, tstep, step, dir) => {
                let mut step = step + 1;
                let mut new_dir = dir;

                if step >= tstep {
                    step = 0;

                    paint_backlight(leds, c);

                    if dir {
                        if self.brightness == 100 {
                            self.brightness -= 1;
                            new_dir = false;
                        }
                        self.brightness += 1;
                    } else {
                        if self.brightness == 5 {
                            self.brightness += 1;
                            new_dir = true;
                        }
                        self.brightness -= 1;
                    }
                }
                BacklightMode::Breath(c, tstep, step, new_dir)
            },
            BacklightMode::Circling(c, tstep, step, index, dir) => {
                let mut new_dir = dir;
                let mut new_index = index;

                let mut step = step + 1;

                if step >= tstep {
                    step = 0;

                    if new_index == 0 && !dir {
                        new_index = 0;
                        new_dir = true;
                    } else if new_index == 6 && dir {
                        new_index = 6;
                        new_dir = false;
                    } else {
                        new_index = if dir {
                            index + 1
                        } else {
                            index - 1
                        };
                    }
                }
                paint_circling(leds, c, new_index);
                BacklightMode::Circling(c, tstep, step, new_index, new_dir)
            },
        };
        assert(leds@ =~= refreshed_leds(old_mode, old_level, old(leds)@));
        leds.frame(self.brightness)
    }
}

impl Backlight {
    /// Applies a released backlight key. The brightness keys return the frame
    /// to send at the new brightness; the other keys change the mode only and
    /// return `None`.
    pub fn on_custom_action(&mut self, action: CustomActions, leds: &Leds) -> (frame: Option<[Rgb8; 10]>)
        requires
            old(self).wf(),
        ensures
            final(self).wf(),
            match action {
                CustomActions::LightUp => {
                    &&& final(self)@ == (old(self)@.0, raised(old(self)@.1))
                    &&& frame matches Some(f) && f@ == scaled(leds@, raised(old(self)@.1))
                },
                CustomActions::LightDown => {
                    &&& final(self)@ == (old(self)@.0, lowered(old(self)@.1))
                    &&& frame matches Some(f) && f@ == scaled(leds@, lowered(old(self)@.1))
                },
                CustomActions::ColorCycle => {
                    &&& final(self)@ == (recolored(old(self)@.0), old(self)@.1)
                    &&& frame is None
                },
                CustomActions::ModeCycle => {
                    &&& final(self)@ == (next_mode_of(old(self)@.0), old(self)@.1)
                    &&& frame is None
                },
                CustomActions::FreqUp => {
                    &&& final(self)@ == (freq_changed(old(self)@.0, true), old(self)@.1)
                    &&& frame is None
                },
                CustomActions::FreqDown => {
                    &&& final(self)@ == (freq_changed(old(self)@.0, false), old(self)@.1)
                    &&& frame is None
                },
            },
    {
        match action {
            CustomActions::LightUp => {
                self.brightness = if self.brightness == 100 {
                    100
                } else {
                    self.brightness + 1
                };
                Some(leds.frame(self.brightness))
            },
            CustomActions::LightDown => {
                self.brightness = if self.brightness == 0 {
                    0
                } else {
                    self.brightness - 1
                };
                Some(leds.frame(self.brightness))
            },
            CustomActions::ColorCycle => {
                self.next_color();
                None
            },
            CustomActions::ModeCycle => {
                self.next_mode();
                None
            },
            CustomActions::FreqUp => {
                self.change_freq(true);
                None
            },
            CustomActions::FreqDown => {
                self.change_freq(false);
                None
            },
        }
    }
}

} // verus!
