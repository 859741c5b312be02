//! Colors as `(red, green, blue)` triples: a hue wheel and brightness scaling.

use vstd::prelude::*;

verus! {

/// The color at a position of the hue wheel. The position is turned round
/// (`255 - pos`) and falls into one of three bands of 85 steps; within a band
/// one channel falls from 255 in steps of 3 while the next rises from 0, and
/// the third is dark.
pub open spec fn wheel_color(pos: u8) -> (u8, u8, u8) {
    let turned = 255 - pos;
    if turned < 85 {
        ((255 - turned * 3) as u8, 0u8, (turned * 3) as u8)
    } else if turned < 170 {
        (0u8, ((turned - 85) * 3) as u8, (255 - (turned - 85) * 3) as u8)
    } else {
        (((turned - 170) * 3) as u8, (255 - (turned - 170) * 3) as u8, 0u8)
    }
}

/// Maps a wheel position to its color. The wheel runs red, green, blue and
/// back to red as the position grows.
pub fn color_wheel(pos: u8) -> (color: (u8, u8, u8))
    ensures
        color == wheel_color(pos),
        color.0 + color.1 + color.2 == 255,
        color.0 == 0 || color.1 == 0 || color.2 == 0,
{
    let turned: u8 = 255 - pos;
    if turned < 85 {
        let p: u16 = turned as u16;
        ((255 - p * 3) as u8, 0, (p * 3) as u8)
    } else if turned < 170 {
        let p: u16 = (turned - 85) as u16;
        (0, (p * 3) as u8, (255 - p * 3) as u8)
    } else {
        let p: u16 = (turned - 170) as u16;
        ((p * 3) as u8, (255 - p * 3) as u8, 0)
    }
}

/// The wheel has no jump: from one position to the next, and from the last
/// position back to the first, no channel moves by more than 3.
pub proof fn color_wheel_is_continuous(pos: u8)
    ensures
        ({
            let here = wheel_color(pos);
            let next = wheel_color(((pos + 1) % 256) as u8);
            &&& -3 <= next.0 - here.0 <= 3
            &&& -3 <= next.1 - here.1 <= 3
            &&& -3 <= next.2 - here.2 <= 3
        }),
{
}

/// Where the wheel stands on a pure color. At positions 0, 85, 170 and 255
/// one channel is at full scale and the other two are dark: red, green, blue
/// and red again. Everywhere else exactly one channel is dark and none is at
/// full scale.
pub proof fn color_wheel_pure_colors(pos: u8)
    ensures
        wheel_color(0) == (255u8, 0u8, 0u8),
        wheel_color(85) == (0u8, 255u8, 0u8),
        wheel_color(170) == (0u8, 0u8, 255u8),
        wheel_color(255) == (255u8, 0u8, 0u8),
        pos != 0 && pos != 85 && pos != 170 && pos != 255 ==> ({
            let (r, g, b) = wheel_color(pos);
            &&& r < 255 && g < 255 && b < 255
            &&& (r == 0 && g > 0 && b > 0) || (r > 0 && g == 0 && b > 0) || (r > 0 && g > 0 && b
                == 0)
        }),
{
}

/// The wheel shows each of its colors at one position only, but for pure
/// red, with which it both begins and ends.
pub proof fn color_wheel_repeats_only_red(a: u8, b: u8)
    ensures
        wheel_color(a) == wheel_color(b) <==> (a == b || (a == 0 && b == 255) || (a == 255 && b
            == 0)),
{
}

/// One channel at the given brightness: `channel * brightness / 255`,
/// rounded down.
pub open spec fn dimmed_channel(channel: u8, brightness: u8) -> u8 {
    (channel * brightness / 255) as u8
}

/// A color at the given brightness, channel by channel.
pub open spec fn dimmed(color: (u8, u8, u8), brightness: u8) -> (u8, u8, u8) {
    (
        dimmed_channel(color.0, brightness),
        dimmed_channel(color.1, brightness),
        dimmed_channel(color.2, brightness),
    )
}

fn scale_channel(channel: u8, brightness: u8) -> (scaled: u8)
    ensures
        scaled == dimmed_channel(channel, brightness),
        scaled <= channel,
        brightness == 0 ==> scaled == 0,
        brightness == 255 ==> scaled == channel,
{
    assert(channel * brightness <= channel * 255) by (nonlinear_arith)
        requires
            brightness <= 255,
    ;
    ((channel as u16 * brightness as u16) / 255) as u8
}

/// Scales a color to a brightness, where 255 leaves it as it is and 0 turns
/// it off.
pub fn apply_brightness(color: (u8, u8, u8), brightness: u8) -> (scaled: (u8, u8, u8))
    ensures
        scaled == dimmed(color, brightness),
        scaled.0 <= color.0 && scaled.1 <= color.1 && scaled.2 <= color.2,
        brightness == 0 ==> scaled == (0u8, 0u8, 0u8),
        brightness == 255 ==> scaled == color,
{
    (
        scale_channel(color.0, brightness),
        scale_channel(color.1, brightness),
        scale_channel(color.2, brightness),
    )
}

} // verus!
