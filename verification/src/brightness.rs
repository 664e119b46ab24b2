use vstd::prelude::*;
use crate::color::Color;

verus! {

/// One channel attenuated by `level` out of 255: multiply, then drop the low
/// eight bits. This is the fixed rounding rule of the scaler.
pub open spec fn scaled_channel(c: int, level: int) -> int {
    (c * level) / 256
}

/// A color with every channel attenuated by `level`. For channels and levels
/// in [0, 255] the scaled channels stay in [0, 255], so the casts are exact.
pub open spec fn scaled_color(c: Color, level: int) -> Color {
    Color {
        red: scaled_channel(c.red as int, level) as u8,
        green: scaled_channel(c.green as int, level) as u8,
        blue: scaled_channel(c.blue as int, level) as u8,
    }
}

/// A frame with every color attenuated by `level`.
pub open spec fn scaled_seq(s: Seq<Color>, level: int) -> Seq<Color> {
    s.map(|i: int, c: Color| scaled_color(c, level))
}

/// Attenuate one channel by `level` out of 255.
pub fn scale_channel(c: u8, level: u8) -> (r: u8)
    ensures
        r as int == scaled_channel(c as int, level as int),
{
    proof {
        assert(c as int * level as int <= 255 * 255) by (nonlinear_arith)
            requires
                c <= 255,
                level <= 255,
        ;
    }
    ((c as u32 * level as u32) / 256) as u8
}

/// Attenuate every channel of one color by `level` out of 255.
pub fn scale_color(c: Color, level: u8) -> (r: Color)
    ensures
        r == scaled_color(c, level as int),
{
    Color {
        red: scale_channel(c.red, level),
        green: scale_channel(c.green, level),
        blue: scale_channel(c.blue, level),
    }
}

/// The brightness scaler: a new frame in which every color of `colors` is
/// attenuated by `level` out of 255. Side-effect-free; the input frame is
/// only read.
pub fn scale_colors(colors: &Vec<Color>, level: u8) -> (r: Vec<Color>)
    ensures
        r@ == scaled_seq(colors@, level as int),
{
    let mut out: Vec<Color> = Vec::new();
    let n = colors.len();
    let mut i: usize = 0;
    while i < n
        invariant
            n == colors@.len(),
            i <= n,
            out@.len() == i,
            forall|k: int| 0 <= k < i ==> out@[k] == scaled_color(colors@[k], level as int),
        decreases n - i,
    {
        out.push(scale_color(colors[i], level));
        i += 1;
    }
    proof {
        assert(out@ =~= scaled_seq(colors@, level as int));
    }
    out
}

/// Scaling by level 0 blacks the whole frame out: every color of the scaled
/// frame is (0, 0, 0).
pub proof fn lemma_scale_by_zero(s: Seq<Color>)
    ensures
        scaled_seq(s, 0).len() == s.len(),
        forall|i: int|
            0 <= i < s.len() ==> scaled_seq(s, 0)[i] == (Color { red: 0, green: 0, blue: 0 }),
{
}

/// What one channel becomes under the full level 255: the rounding rule keeps
/// zero at zero and takes one unit off every other value.
pub open spec fn full_scaled_channel(c: u8) -> u8 {
    if c == 0 {
        0u8
    } else {
        (c - 1) as u8
    }
}

/// Scaling by the full level 255 reproduces the frame up to the rounding
/// rule: each channel keeps its value except for the loss of a single unit,
/// and zero stays exactly zero.
pub proof fn lemma_scale_by_full(s: Seq<Color>)
    ensures
        scaled_seq(s, 255).len() == s.len(),
        forall|i: int|
            0 <= i < s.len() ==> scaled_seq(s, 255)[i] == (Color {
                red: full_scaled_channel(s[i].red),
                green: full_scaled_channel(s[i].green),
                blue: full_scaled_channel(s[i].blue),
            }),
{
    assert forall|c: u8| scaled_channel(c as int, 255) == full_scaled_channel(c) as int by {
        lemma_full_scale_channel(c);
    }
}

/// The channel-level fact behind `lemma_scale_by_full`: multiplying by 255
/// and dropping the low eight bits takes exactly one unit off any nonzero
/// 8-bit value.
pub proof fn lemma_full_scale_channel(c: u8)
    ensures
        scaled_channel(c as int, 255) == full_scaled_channel(c) as int,
{
    if c != 0 {
        assert((c as int * 255) / 256 == c - 1) by (nonlinear_arith)
            requires
                1 <= c <= 255,
        ;
    }
}

} // verus!
