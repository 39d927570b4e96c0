use vstd::prelude::*;

verus! {

/// The hues of the rainbow planet, red to violet.
#[derive(Clone, Copy, Debug, PartialEq, Eq, Structural)]
pub enum RainbowHue {
    Red,
    Orange,
    Yellow,
    Green,
    Blue,
    Indigo,
    Violet,
}

/// The hue for a truncated band index: indices 0 to 5 name the first six hues,
/// and every other index, 6 included, takes violet.
pub open spec fn hue_of(index: int) -> RainbowHue {
    if index == 0 {
        RainbowHue::Red
    } else if index == 1 {
        RainbowHue::Orange
    } else if index == 2 {
        RainbowHue::Yellow
    } else if index == 3 {
        RainbowHue::Green
    } else if index == 4 {
        RainbowHue::Blue
    } else if index == 5 {
        RainbowHue::Indigo
    } else {
        RainbowHue::Violet
    }
}

/// Picks the hue for the truncated band value of the rainbow planet.
pub fn hue_for_band(index: i32) -> (r: RainbowHue)
    ensures
        r == hue_of(index as int),
        index == 5 ==> r == RainbowHue::Indigo,
        index == 6 ==> r == RainbowHue::Violet,
        r == RainbowHue::Violet <==> !(0 <= index < 6),
{
    match index {
        0 => RainbowHue::Red,
        1 => RainbowHue::Orange,
        2 => RainbowHue::Yellow,
        3 => RainbowHue::Green,
        4 => RainbowHue::Blue,
        5 => RainbowHue::Indigo,
        _ => RainbowHue::Violet,
    }
}

} // verus!
