use vstd::prelude::*;

verus! {

/// An RGB colour with integer channels; a displayable channel lies in `[0, 255]`.
#[derive(Copy, Clone, PartialEq, Eq, Debug, Structural)]
pub struct Color {
    pub r: usize,
    pub g: usize,
    pub b: usize,
}

/// `g` is the integer square root of `n`: the largest integer whose square is at most `n`.
pub open spec fn is_isqrt(n: int, g: int) -> bool {
    0 <= g && g * g <= n && n < (g + 1) * (g + 1)
}

/// `floor(255.99 * c)`: a channel scaled by the display factor.
pub open spec fn display_scaled(c: int) -> int {
    c * 25599 / 100
}

/// The gamma-corrected value of channel `c`, `floor(sqrt(c / 255.99) * 255.99)`.
///
/// Since `sqrt(c / 255.99) * 255.99 == sqrt(255.99 * c)` and `floor(sqrt(x)) ==
/// floor(sqrt(floor(x)))` for `x >= 0`, this is the integer square root of
/// `display_scaled(c)`.
pub open spec fn is_gamma_of(c: int, g: int) -> bool {
    is_isqrt(display_scaled(c), g)
}

/// Integer square root of `n`, by bisection over `[0, 2^64)`.
pub fn isqrt(n: u128) -> (g: u64)
    ensures
        is_isqrt(n as int, g as int),
{
    let mut lo: u128 = 0;
    let mut hi: u128 = 0x1_0000_0000_0000_0000;
    assert(n < hi * hi) by (nonlinear_arith)
        requires
            hi == 0x1_0000_0000_0000_0000u128,
            n <= u128::MAX,
    ;
    while hi - lo > 1
        invariant
            lo < hi <= 0x1_0000_0000_0000_0000u128,
            lo * lo <= n,
            n < hi * hi,
        decreases hi - lo,
    {
        let mid: u128 = lo + (hi - lo) / 2;
        assert(mid * mid < 0x1_0000_0000_0000_0000u128 * 0x1_0000_0000_0000_0000u128)
            by (nonlinear_arith)
            requires
                mid < 0x1_0000_0000_0000_0000u128,
        ;
        if mid * mid <= n {
            lo = mid;
        } else {
            hi = mid;
        }
    }
    assert(hi == lo + 1);
    lo as u64
}

/// A gamma-corrected channel never exceeds `max(c, 255)`.
proof fn lemma_gamma_bounded(c: int, g: int)
    requires
        c >= 0,
        is_gamma_of(c, g),
    ensures
        g <= c || g <= 255,
{
    if g > c && g > 255 {
        assert(g * g >= 256 * (c + 1)) by (nonlinear_arith)
            requires
                g >= c + 1,
                g >= 256,
                c >= 0,
        ;
    }
}

/// Gamma-corrects one channel: `floor(sqrt(c / 255.99) * 255.99)`.
pub fn gamma_channel(c: usize) -> (g: usize)
    ensures
        is_gamma_of(c as int, g as int),
{
    let n: u128 = (c as u128) * 25599 / 100;
    let g = isqrt(n);
    proof {
        lemma_gamma_bounded(c as int, g as int);
    }
    g as usize
}

impl Color {
    pub fn new(r: usize, g: usize, b: usize) -> (c: Color)
        ensures
            c.r == r,
            c.g == g,
            c.b == b,
    {
        Color { r, g, b }
    }

    /// Gamma-corrects each channel for display.
    pub fn hoge_gamma(&self) -> (c: Color)
        ensures
            is_gamma_of(self.r as int, c.r as int),
            is_gamma_of(self.g as int, c.g as int),
            is_gamma_of(self.b as int, c.b as int),
    {
        Color::new(gamma_channel(self.r), gamma_channel(self.g), gamma_channel(self.b))
    }
}

impl From<(usize, usize, usize)> for Color {
    fn from(v: (usize, usize, usize)) -> (c: Color) {
        Color::new(v.0, v.1, v.2)
    }
}

impl vstd::std_specs::convert::FromSpecImpl<(usize, usize, usize)> for Color {
    open spec fn obeys_from_spec() -> bool {
        true
    }

    open spec fn from_spec(v: (usize, usize, usize)) -> Color {
        Color { r: v.0, g: v.1, b: v.2 }
    }
}

/// Channel-wise sum; defined where no channel overflows.
impl core::ops::Add for Color {
    type Output = Color;

    fn add(self, other: Color) -> (c: Color) {
        Color { r: self.r + other.r, g: self.g + other.g, b: self.b + other.b }
    }
}

impl vstd::std_specs::ops::AddSpecImpl for Color {
    open spec fn obeys_add_spec() -> bool {
        true
    }

    open spec fn add_req(self, other: Color) -> bool {
        self.r + other.r <= usize::MAX && self.g + other.g <= usize::MAX && self.b + other.b
            <= usize::MAX
    }

    open spec fn add_spec(self, other: Color) -> Color {
        Color {
            r: (self.r + other.r) as usize,
            g: (self.g + other.g) as usize,
            b: (self.b + other.b) as usize,
        }
    }
}

} // verus!
