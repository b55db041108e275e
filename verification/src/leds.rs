//! The ten LEDs of the board: four lock indicators, then six backlight LEDs.
use vstd::prelude::*;
use crate::color::{Rgb8, dim, black, black_spec, blue, blue_spec, green, green_spec, violet, violet_spec, brightness_frame};

verus! {

/// Brightness level at which the lock indicators are sent.
pub open spec fn indicator_level() -> u8 {
    10
}

/// Every color of `colors` scaled by `level`, as it goes out on the wire.
pub open spec fn scaled(colors: Seq<Rgb8>, level: u8) -> Seq<Rgb8> {
    Seq::new(colors.len(), |i: int| dim(colors[i], level))
}

/// The colors currently shown by the LED strip.
pub struct Leds {
    pub leds: [Rgb8; 10],
}

impl View for Leds {
    type V = Seq<Rgb8>;

    open spec fn view(&self) -> Seq<Rgb8> {
        self.leds@
    }
}

impl Leds {
    /// All ten LEDs black.
    pub fn new() -> (l: Leds)
        ensures
            l@.len() == 10,
            forall|i: int| 0 <= i < 10 ==> #[trigger] l@[i] == black_spec(),
    {
        Leds::filled(black())
    }

    /// All ten LEDs showing `c`.
    pub fn filled(c: Rgb8) -> (l: Leds)
        ensures
            l@.len() == 10,
            forall|i: int| 0 <= i < 10 ==> #[trigger] l@[i] == c,
    {
        Leds { leds: [c; 10] }
    }

    /// The frame to send for the current colors at brightness `level`.
    pub fn frame(&self, level: u8) -> (f: [Rgb8; 10])
        ensures
            f@ == scaled(self@, level),
    {
        let f = brightness_frame(&self.leds, level);
        assert(f@ =~= scaled(self@, level));
        f
    }

    /// Sets the caps lock indicator (LED 0: blue when on, black when off) and
    /// returns the frame to send, at the indicator brightness.
    pub fn caps_lock(&mut self, status: bool) -> (f: [Rgb8; 10])
        ensures
            final(self)@ == old(self)@.update(0, if status { blue_spec() } else { black_spec() }),
            f@ == scaled(final(self)@, indicator_level()),
    {
        if status {
            self.leds[0] = blue();
        } else {
            self.leds[0] = black();
        }
        self.frame(10)
    }

    /// Sets the num lock indicator (LED 1: green when on, black when off) and
    /// returns the frame to send, at the indicator brightness.
    pub fn num_lock(&mut self, status: bool) -> (f: [Rgb8; 10])
        ensures
            final(self)@ == old(self)@.update(1, if status { green_spec() } else { black_spec() }),
            f@ == scaled(final(self)@, indicator_level()),
    {
        if status {
            self.leds[1] = green();
        } else {
            self.leds[1] = black();
        }
        self.frame(10)
    }

    /// Sets the compose indicator (LED 3: violet when on, black when off) and
    /// returns the frame to send, at the indicator brightness.
    pub fn compose(&mut self, status: bool) -> (f: [Rgb8; 10])
        ensures
            final(self)@ == old(self)@.update(3, if status { violet_spec() } else { black_spec() }),
            f@ == scaled(final(self)@, indicator_level()),
    {
        if status {
            self.leds[3] = violet();
        } else {
            self.leds[3] = black();
        }
        self.frame(10)
    }
}

/// The brightness levels of the fade shown at start-up: up from 0 to 99,
/// then back down from 99 to 0.
pub fn startup_fade_levels() -> (v: Vec<u8>)
    ensures
        v@.len() == 200,
        forall|i: int| 0 <= i < 100 ==> #[trigger] v@[i] == i,
        forall|i: int| 100 <= i < 200 ==> #[trigger] v@[i] == 199 - i,
{
    let mut v: Vec<u8> = Vec::new();
    let mut i: u8 = 0;
    while i < 100
        invariant
            i <= 100,
            v@.len() == i,
            forall|j: int| 0 <= j < i ==> #[trigger] v@[j] == j,
        decreases 100 - i,
    {
        v.push(i);
        i = i + 1;
    }
    let mut k: u8 = 100;
    while k > 0
        invariant
            k <= 100,
            v@.len() == 200 - k,
            forall|j: int| 0 <= j < 100 ==> #[trigger] v@[j] == j,
            forall|j: int| 100 <= j < 200 - k ==> #[trigger] v@[j] == 199 - j,
        decreases k,
    {
        k = k - 1;
        v.push(k);
    }
    v
}

} // verus!
