//! One RGBA cell of the frame, and how an escape outcome is shaded into one.

use vstd::prelude::*;

verus! {

/// One colour cell: four 8-bit channels, stored in R, G, B, A order.
#[derive(Clone, Copy, Debug, PartialEq, Eq, Structural)]
pub struct Pixel {
    pub r: u8,
    pub g: u8,
    pub b: u8,
    pub a: u8,
}

/// The byte of channel `k` of `p` (0 red, 1 green, 2 blue, 3 alpha).
pub open spec fn channel(p: Pixel, k: int) -> u8 {
    if k == 0 {
        p.r
    } else if k == 1 {
        p.g
    } else if k == 2 {
        p.b
    } else {
        p.a
    }
}

/// The four bytes of `p` in memory order.
pub open spec fn pixel_bytes(p: Pixel) -> Seq<u8> {
    seq![p.r, p.g, p.b, p.a]
}

/// An escape outcome fits the iteration cap: a point that escaped did so on
/// one of the `cap` steps (numbered from 0); `None` is a point that never did.
pub open spec fn escape_within(escape: Option<u32>, cap: u32) -> bool {
    match escape {
        Some(i) => i < cap,
        None => true,
    }
}

/// Alpha of an escape outcome. The escape value is `i / cap` for a point that
/// escaped on step `i`, and zero for one that never escaped; a zero value is
/// fully opaque, any other is scaled to 0..=255 and rounded to nearest (a half
/// goes up).
pub open spec fn escape_alpha(escape: Option<u32>, cap: u32) -> int {
    match escape {
        None => 255,
        Some(i) => if i == 0 {
            255
        } else {
            (510 * i + cap) / (2 * cap as int)
        },
    }
}

/// The colour of an escape outcome: blue, with the outcome in its alpha.
pub open spec fn shade(escape: Option<u32>, cap: u32) -> Pixel {
    Pixel { r: 0, g: 0, b: 255, a: escape_alpha(escape, cap) as u8 }
}

/// The escape alpha of an outcome within the cap fits in a byte.
pub proof fn lemma_escape_alpha_in_range(escape: Option<u32>, cap: u32)
    requires
        escape_within(escape, cap),
    ensures
        0 <= escape_alpha(escape, cap) <= 255,
{
    if let Some(i) = escape {
        if i != 0 {
            let n = 510 * i + cap;
            let d = 2 * cap as int;
            assert(0 <= n / d <= 255) by (nonlinear_arith)
                requires
                    n == 510 * i + cap,
                    d == 2 * cap,
                    0 < i < cap,
            ;
        }
    }
}

/// Whether an escape outcome fits the iteration cap.
pub fn escape_fits(escape: Option<u32>, cap: u32) -> (fits: bool)
    ensures
        fits == escape_within(escape, cap),
{
    match escape {
        Some(i) => i < cap,
        None => true,
    }
}

impl Pixel {
    /// The channels as a tuple, in R, G, B, A order.
    pub fn to_tuple(self) -> (t: (u8, u8, u8, u8))
        ensures
            t == (self.r, self.g, self.b, self.a),
    {
        (self.r, self.g, self.b, self.a)
    }

    /// The channels as an array, in R, G, B, A order.
    pub fn to_array(self) -> (bytes: [u8; 4])
        ensures
            bytes@ == pixel_bytes(self),
    {
        let bytes = [self.r, self.g, self.b, self.a];
        assert(bytes@ =~= pixel_bytes(self));
        bytes
    }

    /// The colour of one escape outcome under iteration cap `cap`.
    pub fn from_escape(escape: Option<u32>, cap: u32) -> (p: Pixel)
        requires
            escape_within(escape, cap),
        ensures
            p == shade(escape, cap),
    {
        proof {
            lemma_escape_alpha_in_range(escape, cap);
        }
        let a: u8 = match escape {
            None => 255,
            Some(i) => if i == 0 {
                255
            } else {
                let wide: u64 = i as u64;
                assert(510 * wide <= 510 * 0xffff_ffffu64);
                let n: u64 = 510 * wide + cap as u64;
                let d: u64 = 2 * cap as u64;
                (n / d) as u8
            },
        };
        Pixel { r: 0, g: 0, b: 255, a }
    }
}

} // verus!
