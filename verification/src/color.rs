//! Colors of the LED strip and the brightness scaling applied before a frame is sent.
use vstd::prelude::*;

verus! {

/// An 8-bit-per-channel RGB color, as the WS2812 LEDs take it.
#[derive(Clone, Copy, Debug, PartialEq, Eq, Structural)]
pub struct Rgb8 {
    pub r: u8,
    pub g: u8,
    pub b: u8,
}

/// Black, that is an LED switched off, as a value of the specification.
pub open spec fn black_spec() -> Rgb8 {
    Rgb8 { r: 0x00, g: 0x00, b: 0x00 }
}

/// Black, that is an LED switched off.
#[verifier::when_used_as_spec(black_spec)]
pub fn black() -> (c: Rgb8)
    ensures
        c == black_spec(),
{
    Rgb8 { r: 0x00, g: 0x00, b: 0x00 }
}

/// Web red, as a value of the specification.
pub open spec fn red_spec() -> Rgb8 {
    Rgb8 { r: 0xFF, g: 0x00, b: 0x00 }
}

/// Web red.
#[verifier::when_used_as_spec(red_spec)]
pub fn red() -> (c: Rgb8)
    ensures
        c == red_spec(),
{
    Rgb8 { r: 0xFF, g: 0x00, b: 0x00 }
}

/// Web green, as a value of the specification.
pub open spec fn green_spec() -> Rgb8 {
    Rgb8 { r: 0x00, g: 0x80, b: 0x00 }
}

/// Web green.
#[verifier::when_used_as_spec(green_spec)]
pub fn green() -> (c: Rgb8)
    ensures
        c == green_spec(),
{
    Rgb8 { r: 0x00, g: 0x80, b: 0x00 }
}

/// Web blue, as a value of the specification.
pub open spec fn blue_spec() -> Rgb8 {
    Rgb8 { r: 0x00, g: 0x00, b: 0xFF }
}

/// Web blue.
#[verifier::when_used_as_spec(blue_spec)]
pub fn blue() -> (c: Rgb8)
    ensures
        c == blue_spec(),
{
    Rgb8 { r: 0x00, g: 0x00, b: 0xFF }
}

/// Web violet, as a value of the specification.
pub open spec fn violet_spec() -> Rgb8 {
    Rgb8 { r: 0xEE, g: 0x82, b: 0xEE }
}

/// Web violet.
#[verifier::when_used_as_spec(violet_spec)]
pub fn violet() -> (c: Rgb8)
    ensures
        c == violet_spec(),
{
    Rgb8 { r: 0xEE, g: 0x82, b: 0xEE }
}

/// Web yellow, as a value of the specification.
pub open spec fn yellow_spec() -> Rgb8 {
    Rgb8 { r: 0xFF, g: 0xFF, b: 0x00 }
}

/// Web yellow.
#[verifier::when_used_as_spec(yellow_spec)]
pub fn yellow() -> (c: Rgb8)
    ensures
        c == yellow_spec(),
{
    Rgb8 { r: 0xFF, g: 0xFF, b: 0x00 }
}

/// One channel scaled by a brightness level, as `smart_leds::brightness` computes it.
pub open spec fn dim_channel(v: u8, level: u8) -> u8 {
    ((v as int * (level as int + 1)) / 256) as u8
}

/// A color scaled by a brightness level, channel by channel.
pub open spec fn dim(c: Rgb8, level: u8) -> Rgb8 {
    Rgb8 { r: dim_channel(c.r, level), g: dim_channel(c.g, level), b: dim_channel(c.b, level) }
}

/// Scales every color of a frame by `level` with `smart_leds::brightness`.
/// Trusted: each output channel is claimed to be `v * (level + 1) / 256` of
/// the input channel `v`, which is what `Brightness::next` computes in
/// smart-leds 0.3.0, color by color and in order.
#[verifier::external_body]
pub(crate) fn brightness_frame(frame: &[Rgb8; 10], level: u8) -> (out: [Rgb8; 10])
    ensures
        forall|i: int| 0 <= i < 10 ==> #[trigger] out[i] == dim(frame[i], level),
{
    let input = frame.iter().map(|c| smart_leds::RGB8 { r: c.r, g: c.g, b: c.b });
    let mut out = *frame;
    for (o, c) in out.iter_mut().zip(smart_leds::brightness(input, level)) {
        *o = Rgb8 { r: c.r, g: c.g, b: c.b };
    }
    out
}

/// The colors that the color key steps through, in order.
pub open spec fn color_cycle() -> Seq<Rgb8> {
    seq![red_spec(), green_spec(), blue_spec(), violet_spec(), yellow_spec()]
}

/// The color that follows `c` when the color key is pressed: the next one of
/// red, green, blue, violet, yellow, wrapping to red; any other color gives red.
pub open spec fn next_color_of(c: Rgb8) -> Rgb8 {
    if c == red_spec() {
        green_spec()
    } else if c == green_spec() {
        blue_spec()
    } else if c == blue_spec() {
        violet_spec()
    } else if c == violet_spec() {
        yellow_spec()
    } else {
        red_spec()
    }
}

/// Stepping through the color cycle.
pub trait ColorSeq {
    fn next_color(&self) -> Rgb8;
}

impl ColorSeq for Rgb8 {
    /// The color after `self` in the color cycle.
    fn next_color(&self) -> (n: Rgb8)
        ensures
            n == next_color_of(*self),
    {
        let seq: [Rgb8; 5] = [red(), green(), blue(), violet(), yellow()];
        let mut next = false;
        let mut k: usize = 0;
        while k < 5
            invariant
                k <= 5,
                seq@ == color_cycle(),
                forall|j: int| 0 <= j < k - 1 ==> seq@[j] != *self,
                next <==> (k > 0 && seq@[k - 1] == *self),
            decreases 5 - k,
        {
            let c = seq[k];
            if next {
                return c;
            }
            if *self == c {
                next = true;
            }
            k = k + 1;
        }
        seq[0]
    }
}

} // verus!
