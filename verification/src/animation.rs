//! The rainbow chase: what each LED shows in each frame.
//!
//! A frame is numbered by a 16-bit counter that wraps. The hue of an LED
//! follows the counter, shifted along the strip; its brightness is a base
//! level plus the product of a slow wave shared by the strip and a faster wave
//! that travels along it.

use vstd::prelude::*;
use crate::color::{apply_brightness, color_wheel, dimmed, wheel_color};
use crate::pixel::{grb_word, pack_grb};
use crate::wave::{level_product, mul_u8, triangle_level, triangle_wave};

verus! {

/// Number of LEDs on the strip.
pub const PIXEL_COUNT: usize = 8;

/// Pause after each frame, in milliseconds.
pub const FRAME_DELAY_MS: u64 = 35;

/// Wheel positions between the hues of neighbouring LEDs.
pub const COLOR_SPREAD: u16 = 24;

/// What the frame counter gains with each frame.
pub const COLOR_SPEED: u16 = 3;

/// Ticks between the sparkle waves of neighbouring LEDs.
pub const SPARKLE_SPACING: u16 = 56;

/// Period of the wave that the whole strip breathes with, in ticks.
pub const BREATH_PERIOD: u16 = 640;

/// Period of the sparkle wave, in ticks.
pub const SPARKLE_PERIOD: u16 = 256;

/// Brightness of an LED while either wave is at rest.
pub const BASE_BRIGHTNESS: u16 = 45;

/// Wheel position of an LED in a frame: the frame counter plus the LED's
/// share of the spread, taken round the wheel.
pub open spec fn led_hue(frame: u16, led: int) -> u8 {
    ((frame + led * COLOR_SPREAD) % 256) as u8
}

/// Tick of an LED's sparkle wave in a frame: the frame counter plus the
/// LED's share of the spacing, wrapped to 16 bits.
pub open spec fn led_sparkle_tick(frame: u16, led: int) -> u16 {
    ((frame + led * SPARKLE_SPACING) % 0x1_0000) as u16
}

/// Brightness of an LED in a frame: the base level plus the product of the
/// breathing wave and the LED's sparkle wave, held at 255.
pub open spec fn led_brightness(frame: u16, led: int) -> u8 {
    let breathe = triangle_level(frame as int, BREATH_PERIOD as int);
    let sparkle = triangle_level(led_sparkle_tick(frame, led) as int, SPARKLE_PERIOD as int);
    let lit = BASE_BRIGHTNESS + level_product(breathe, sparkle);
    if lit > 255 {
        255u8
    } else {
        lit as u8
    }
}

/// Color of an LED in a frame: its hue at its brightness.
pub open spec fn led_color(frame: u16, led: int) -> (u8, u8, u8) {
    dimmed(wheel_color(led_hue(frame, led)), led_brightness(frame, led))
}

/// Pixel word of an LED in a frame.
pub open spec fn led_word(frame: u16, led: int) -> u32 {
    let color = led_color(frame, led);
    grb_word(color.0, color.1, color.2)
}

/// The pixel words of a frame, in strip order.
pub open spec fn frame_words(frame: u16) -> Seq<u32> {
    Seq::new(PIXEL_COUNT as nat, |led: int| led_word(frame, led))
}

/// The frame counter after `frame`: `COLOR_SPEED` further, wrapped to 16
/// bits.
pub open spec fn frame_after(frame: u16) -> u16 {
    ((frame + COLOR_SPEED) % 0x1_0000) as u16
}

/// Wheel position of LED `led` in frame `frame`.
pub fn hue_index(frame: u16, led: usize) -> (hue: u8)
    requires
        led < PIXEL_COUNT,
    ensures
        hue == led_hue(frame, led as int),
{
    let turned: u16 = frame.wrapping_add((led as u16) * COLOR_SPREAD);
    assert(turned as u8 == turned % 256) by (bit_vector);
    #[verifier::truncate]
    (turned as u8)
}

/// Tick at which the sparkle wave of LED `led` is sampled in frame `frame`.
pub fn sparkle_phase(frame: u16, led: usize) -> (tick: u16)
    requires
        led < PIXEL_COUNT,
    ensures
        tick == led_sparkle_tick(frame, led as int),
{
    frame.wrapping_add((led as u16) * SPARKLE_SPACING)
}

/// Brightness of LED `led` in frame `frame`.
pub fn pixel_brightness(frame: u16, led: usize) -> (brightness: u8)
    requires
        led < PIXEL_COUNT,
    ensures
        brightness == led_brightness(frame, led as int),
        brightness >= BASE_BRIGHTNESS,
{
    let breathe = triangle_wave(frame, BREATH_PERIOD);
    let sparkle = triangle_wave(sparkle_phase(frame, led), SPARKLE_PERIOD);
    let lit: u16 = BASE_BRIGHTNESS + mul_u8(breathe, sparkle) as u16;
    if lit > 255 {
        255
    } else {
        lit as u8
    }
}

/// Color of LED `led` in frame `frame`.
pub fn pixel_color(frame: u16, led: usize) -> (color: (u8, u8, u8))
    requires
        led < PIXEL_COUNT,
    ensures
        color == led_color(frame, led as int),
{
    apply_brightness(color_wheel(hue_index(frame, led)), pixel_brightness(frame, led))
}

/// Pixel word of LED `led` in frame `frame`.
pub fn pixel_word(frame: u16, led: usize) -> (word: u32)
    requires
        led < PIXEL_COUNT,
    ensures
        word == led_word(frame, led as int),
        word & 0xff == 0,
{
    let (r, g, b) = pixel_color(frame, led);
    pack_grb(r, g, b)
}

/// The pixel words of frame `frame`, one for each LED, in strip order.
pub fn render_frame(frame: u16) -> (words: Vec<u32>)
    ensures
        words@ == frame_words(frame),
        words.len() == PIXEL_COUNT,
        forall|led: int| 0 <= led < PIXEL_COUNT ==> words[led] == led_word(frame, led),
{
    let mut words: Vec<u32> = Vec::new();
    let mut led: usize = 0;
    while led < PIXEL_COUNT
        invariant
            led <= PIXEL_COUNT,
            words.len() == led,
            forall|i: int| 0 <= i < led ==> words[i] == led_word(frame, i),
        decreases PIXEL_COUNT - led,
    {
        words.push(pixel_word(frame, led));
        led = led + 1;
    }
    assert(words@ =~= frame_words(frame));
    words
}

/// The frame counter that follows `frame`. It wraps past 65535.
pub fn next_frame(frame: u16) -> (next: u16)
    ensures
        next == frame_after(frame),
        frame + COLOR_SPEED <= u16::MAX ==> next == frame + COLOR_SPEED,
        frame + COLOR_SPEED > u16::MAX ==> next == frame + COLOR_SPEED - 0x1_0000,
{
    frame.wrapping_add(COLOR_SPEED)
}

proof fn lemma_wrap_keeps_low_byte(x: int, y: int)
    ensures
        (x % 0x1_0000 + y) % 256 == (x + y) % 256,
        (x % 256 + y) % 256 == (x + y) % 256,
{
    let wraps = x / 0x1_0000;
    let turns = x / 256;
    vstd::arithmetic::div_mod::lemma_mod_multiples_vanish(256 * wraps, x % 0x1_0000 + y, 256);
    vstd::arithmetic::div_mod::lemma_mod_multiples_vanish(turns, x % 256 + y, 256);
}

/// The chase runs on across the wrap of the frame counter. From any frame
/// to the next, 65535 included, the hue of every LED moves `COLOR_SPEED`
/// positions round the wheel and its sparkle wave moves `COLOR_SPEED` ticks
/// through its period; along the strip, each LED is `COLOR_SPREAD` positions
/// ahead of the one before it.
pub proof fn chase_is_seamless(frame: u16, led: int)
    ensures
        led_hue(frame_after(frame), led) == (led_hue(frame, led) + COLOR_SPEED) % 256,
        led_sparkle_tick(frame_after(frame), led) % SPARKLE_PERIOD == (led_sparkle_tick(
            frame,
            led,
        ) + COLOR_SPEED) % (SPARKLE_PERIOD as int),
        led_hue(frame, led + 1) == (led_hue(frame, led) + COLOR_SPREAD) % 256,
{
    let hue_shift = led * COLOR_SPREAD;
    let tick_shift = led * SPARKLE_SPACING;
    assert((led + 1) * COLOR_SPREAD == hue_shift + COLOR_SPREAD) by (nonlinear_arith)
        requires
            hue_shift == led * COLOR_SPREAD,
    ;
    lemma_wrap_keeps_low_byte(frame + COLOR_SPEED, hue_shift);
    lemma_wrap_keeps_low_byte(frame + hue_shift, COLOR_SPEED as int);
    lemma_wrap_keeps_low_byte(frame + hue_shift, COLOR_SPREAD as int);
    lemma_wrap_keeps_low_byte(frame + COLOR_SPEED, tick_shift);
    lemma_wrap_keeps_low_byte(frame_after(frame) + tick_shift, 0);
    lemma_wrap_keeps_low_byte(frame + tick_shift, COLOR_SPEED as int);
}

} // verus!
