use vstd::prelude::*;
use crate::color::Color;

verus! {

/// Red channel of the wheel at position `pos`, over the three 85-wide bands.
pub open spec fn wheel_red(pos: int) -> int {
    if pos < 85 {
        255 - 3 * pos
    } else if pos < 170 {
        0
    } else {
        3 * (pos - 170)
    }
}

/// Green channel of the wheel at position `pos`.
pub open spec fn wheel_green(pos: int) -> int {
    if pos < 85 {
        0
    } else if pos < 170 {
        3 * (pos - 85)
    } else {
        255 - 3 * (pos - 170)
    }
}

/// Blue channel of the wheel at position `pos`.
pub open spec fn wheel_blue(pos: int) -> int {
    if pos < 85 {
        3 * pos
    } else if pos < 170 {
        255 - 3 * (pos - 85)
    } else {
        0
    }
}

/// The color of the wheel at position `pos` in [0, 256): the three band
/// formulas packed into a color. For `pos` in range every channel lies in
/// [0, 255], so the casts are exact.
pub open spec fn wheel_color_at(pos: int) -> Color {
    Color {
        red: wheel_red(pos) as u8,
        green: wheel_green(pos) as u8,
        blue: wheel_blue(pos) as u8,
    }
}

/// Position on the 256-step color wheel for one LED: the LED's spatial
/// offset across the strip plus the animation phase, wrapped to [0, 256)
/// and then inverted.
pub open spec fn wheel_pos(index: int, strip_len: int, phase: int) -> int
    recommends
        strip_len >= 1,
{
    255 - ((index * 256) / strip_len + phase) % 256
}

/// What the generator shows on LED `index` of a strip of `strip_len` LEDs
/// at animation step `phase`.
pub open spec fn rainbow_color(index: int, strip_len: int, phase: int) -> Color
    recommends
        strip_len >= 1,
{
    wheel_color_at(wheel_pos(index, strip_len, phase))
}

/// Map a wheel position to its color: band arithmetic entirely within u8.
pub fn wheel(pos: u8) -> (c: Color)
    ensures
        c == wheel_color_at(pos as int),
{
    if pos < 85 {
        Color { red: 255 - 3 * pos, green: 0, blue: 3 * pos }
    } else if pos < 170 {
        let p = pos - 85;
        Color { red: 0, green: 3 * p, blue: 255 - 3 * p }
    } else {
        let p = pos - 170;
        Color { red: 3 * p, green: 255 - 3 * p, blue: 0 }
    }
}

/// The color-wheel generator: pure and stateless, so that repeated calls on
/// the same arguments agree.
pub fn wheel_color(index: usize, strip_len: usize, phase: u16) -> (c: Color)
    requires
        strip_len >= 1,
    ensures
        c == rainbow_color(index as int, strip_len as int, phase as int),
{
    let spread: u128 = (index as u128) * 256 / (strip_len as u128);
    let raw: u128 = (spread + phase as u128) % 256;
    let pos: u8 = 255 - (raw as u8);
    assert(spread == (index as int * 256) / (strip_len as int));
    assert(pos as int == wheel_pos(index as int, strip_len as int, phase as int));
    wheel(pos)
}

/// The wheel position always lies in [0, 255]: the wrapped offset is in
/// [0, 256), and the inversion keeps it there.
pub proof fn lemma_wheel_pos_in_range(index: int, strip_len: int, phase: int)
    requires
        strip_len >= 1,
    ensures
        0 <= wheel_pos(index, strip_len, phase) <= 255,
{
    vstd::arithmetic::div_mod::lemma_mod_bound((index * 256) / strip_len + phase, 256);
}

/// No overflow or underflow in the generator: for every LED of the strip and
/// every phase of the wheel, each output channel lies in [0, 255].
pub proof fn lemma_wheel_channels_in_range(index: int, strip_len: int, phase: int)
    requires
        strip_len >= 1,
        0 <= index < strip_len,
        0 <= phase < 256,
    ensures
        0 <= wheel_red(wheel_pos(index, strip_len, phase)) <= 255,
        0 <= wheel_green(wheel_pos(index, strip_len, phase)) <= 255,
        0 <= wheel_blue(wheel_pos(index, strip_len, phase)) <= 255,
{
    lemma_wheel_pos_in_range(index, strip_len, phase);
}

/// The generator is deterministic: two colors computed from the same
/// (index, strip length, phase) triple are the same color.
pub proof fn lemma_generator_deterministic(
    c1: Color,
    c2: Color,
    index: int,
    strip_len: int,
    phase: int,
)
    requires
        c1 == rainbow_color(index, strip_len, phase),
        c2 == rainbow_color(index, strip_len, phase),
    ensures
        c1 == c2,
{
}

/// The animation is periodic in the phase: advancing the phase by one full
/// wheel revolution of 256 steps repeats the color exactly, so the window
/// 256..511 replays the window 0..255.
pub proof fn lemma_wheel_periodic(index: int, strip_len: int, phase: int)
    requires
        strip_len >= 1,
        0 <= phase,
    ensures
        rainbow_color(index, strip_len, phase + 256) == rainbow_color(index, strip_len, phase),
{
    let q = (index * 256) / strip_len;
    vstd::arithmetic::div_mod::lemma_mod_add_multiples_vanish(q + phase, 256);
}

/// Within one 256-step window the phase walks the whole wheel: two distinct
/// phases in [0, 256) land on distinct wheel positions, so the window visits
/// each of the 256 positions exactly once.
pub proof fn lemma_wheel_pos_injective(index: int, strip_len: int, p1: int, p2: int)
    requires
        strip_len >= 1,
        0 <= p1 < 256,
        0 <= p2 < 256,
        p1 != p2,
    ensures
        wheel_pos(index, strip_len, p1) != wheel_pos(index, strip_len, p2),
{
    let q = (index * 256) / strip_len;
    let r = q % 256;
    vstd::arithmetic::div_mod::lemma_mod_bound(q, 256);
    vstd::arithmetic::div_mod::lemma_mod_multiples_vanish(q / 256, r + p1, 256);
    vstd::arithmetic::div_mod::lemma_mod_multiples_vanish(q / 256, r + p2, 256);
    vstd::arithmetic::div_mod::lemma_fundamental_div_mod(q, 256);
    assert((q + p1) % 256 == (r + p1) % 256);
    assert((q + p2) % 256 == (r + p2) % 256);
    vstd::arithmetic::div_mod::lemma_mod_bound(r + p1, 256);
    vstd::arithmetic::div_mod::lemma_mod_bound(r + p2, 256);
    if r + p1 < 256 {
        vstd::arithmetic::div_mod::lemma_small_mod((r + p1) as nat, 256);
    } else {
        vstd::arithmetic::div_mod::lemma_mod_sub_multiples_vanish(r + p1, 256);
        vstd::arithmetic::div_mod::lemma_small_mod((r + p1 - 256) as nat, 256);
    }
    if r + p2 < 256 {
        vstd::arithmetic::div_mod::lemma_small_mod((r + p2) as nat, 256);
    } else {
        vstd::arithmetic::div_mod::lemma_mod_sub_multiples_vanish(r + p2, 256);
        vstd::arithmetic::div_mod::lemma_small_mod((r + p2 - 256) as nat, 256);
    }
}

/// The start of each band is a pure primary color: position 0 is full red,
/// position 85 opens the second band at full blue, and position 170 opens
/// the third band at full green.
pub proof fn lemma_band_starts()
    ensures
        wheel_color_at(0) == (Color { red: 255, green: 0, blue: 0 }),
        wheel_color_at(85) == (Color { red: 0, green: 0, blue: 255 }),
        wheel_color_at(170) == (Color { red: 0, green: 255, blue: 0 }),
{
}

} // verus!
