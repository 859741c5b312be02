//! Brightness envelopes: a triangle wave over a tick counter, and the
//! normalized product of two 8-bit levels.

use vstd::prelude::*;

verus! {

/// The level of the triangle wave at `tick`. The rise of a tick is its
/// distance to the nearer end of its period; it is scaled so that half a
/// period spans 0 to 255. A period shorter than two ticks has no half and
/// gives a flat 0.
pub open spec fn triangle_level(tick: int, period: int) -> int {
    let half = period / 2;
    let phase = tick % period;
    let rise = if phase <= period - phase {
        phase
    } else {
        period - phase
    };
    if half == 0 {
        0
    } else {
        rise * 255 / half
    }
}

/// Triangle wave of the given period, sampled at `tick`.
pub fn triangle_wave(tick: u16, period: u16) -> (level: u8)
    ensures
        level == triangle_level(tick as int, period as int),
        period < 2 ==> level == 0,
        period >= 2 && tick % period == 0 ==> level == 0,
{
    let half: u16 = period / 2;
    if half == 0 {
        return 0;
    }
    let phase: u16 = tick % period;
    let rising: u16 = if phase <= period - phase {
        phase
    } else {
        period - phase
    };
    proof {
        lemma_scaled_rise(rising as int, half as int);
    }
    ((rising as u32 * 255) / half as u32) as u8
}

/// Normalized product of two levels: `a * b / 255`, rounded down.
pub open spec fn level_product(a: int, b: int) -> int {
    a * b / 255
}

/// Scales one level by another, with 255 standing for one.
pub fn mul_u8(a: u8, b: u8) -> (product: u8)
    ensures
        product == level_product(a as int, b as int),
        product <= a,
        product <= b,
        b == 255 ==> product == a,
        a == 255 ==> product == b,
{
    assert(a * b <= 255 * a && a * b <= 255 * b) by (nonlinear_arith);
    ((a as u16 * b as u16) / 255) as u8
}

proof fn lemma_scaled_rise(rise: int, half: int)
    by (nonlinear_arith)
    requires
        1 <= half,
        0 <= rise <= half,
    ensures
        rise < half ==> 0 <= rise * 255 / half < 255,
        rise == half ==> rise * 255 / half == 255,
{
}

proof fn lemma_scaled_rise_grows(rise: int, half: int)
    by (nonlinear_arith)
    requires
        1 <= half,
        0 <= rise,
    ensures
        rise * 255 / half <= (rise + 1) * 255 / half,
{
}

/// The wave stays within 0 to 255 and stands at 0 wherever a period begins.
pub proof fn triangle_wave_starts_at_zero(tick: u16, period: u16)
    requires
        period >= 2,
    ensures
        0 <= triangle_level(tick as int, period as int) <= 255,
        tick % period == 0 ==> triangle_level(tick as int, period as int) == 0,
{
    let half = period as int / 2;
    let phase = tick as int % period as int;
    lemma_scaled_rise(if phase <= period - phase { phase } else { period - phase }, half);
}

/// The wave climbs and then descends. From a tick to the next one in the
/// same period it does not fall before the half-period tick and does not
/// rise from that tick on.
pub proof fn triangle_wave_rises_then_falls(tick: u16, period: u16)
    requires
        period >= 2,
        tick % period + 1 < period,
    ensures
        tick % period < period / 2 ==> triangle_level(tick as int, period as int)
            <= triangle_level(tick + 1, period as int),
        tick % period >= period / 2 ==> triangle_level(tick as int, period as int)
            >= triangle_level(tick + 1, period as int),
{
    let p = period as int;
    let half = p / 2;
    let phase = tick as int % p;
    assert((tick + 1) % p == phase + 1) by {
        vstd::arithmetic::div_mod::lemma_fundamental_div_mod(tick as int, p);
        vstd::arithmetic::div_mod::lemma_fundamental_div_mod_converse(
            tick + 1,
            p,
            tick as int / p,
            phase + 1,
        );
    }
    if phase < half {
        lemma_scaled_rise_grows(phase, half);
    } else {
        lemma_scaled_rise_grows(p - phase - 1, half);
    }
}

/// Where the wave stands at full scale: at the half-period tick and at its
/// mirror image. For an even period the two are one tick; for an odd period
/// the second is the tick after the first.
pub proof fn triangle_wave_peak(tick: u16, period: u16)
    requires
        period >= 2,
    ensures
        triangle_level(tick as int, period as int) == 255 <==> (tick % period == period / 2
            || tick % period == period - period / 2),
{
    let half = period as int / 2;
    let phase = tick as int % period as int;
    lemma_scaled_rise(if phase <= period - phase { phase } else { period - phase }, half);
}

/// The wave reaches 255 at the half-period tick and nowhere else, but for the
/// tick after it in an odd period.
pub proof fn triangle_wave_peaks_at_half_period(tick: u16, period: u16)
    requires
        period >= 2,
        !(period % 2 == 1 && tick % period == period / 2 + 1),
    ensures
        triangle_level(tick as int, period as int) == 255 <==> tick % period == period / 2,
{
    triangle_wave_peak(tick, period);
}

/// An odd period has no middle tick: the tick after the half-period tick
/// stands as far from the end as that one from the start, and is at 255 too.
pub proof fn triangle_wave_odd_period_peaks_twice(tick: u16, period: u16)
    requires
        period >= 2,
        period % 2 == 1,
        tick % period == period / 2 + 1,
    ensures
        triangle_level(tick as int, period as int) == 255,
{
    triangle_wave_peak(tick, period);
}

/// The wave is symmetric within its period: the tick as far from the end of
/// the period as `tick` is from its start has the same level.
pub proof fn triangle_wave_is_symmetric(tick: u16, period: u16)
    requires
        period >= 2,
    ensures
        triangle_level(tick as int, period as int) == triangle_level(
            period - tick % period,
            period as int,
        ),
{
    let p = period as int;
    let phase = tick as int % p;
    if phase == 0 {
        vstd::arithmetic::div_mod::lemma_mod_self_0(p);
    } else {
        vstd::arithmetic::div_mod::lemma_small_mod((p - phase) as nat, p as nat);
    }
}

} // verus!
