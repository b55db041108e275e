//! The keyboard's own actions, placed on the function layer of the key map.
use vstd::prelude::*;

verus! {

/// The custom actions of the key map: brightness up and down, and the
/// backlight mode, color and animation speed keys.
#[derive(Debug, Clone, Copy, Eq, PartialEq, Structural)]
pub enum CustomActions {
    LightUp,
    LightDown,
    ModeCycle,
    ColorCycle,
    FreqUp,
    FreqDown,
}

} // verus!
