use vstd::prelude::*;

verus! {

/// An RGB colour with one byte per channel.
#[derive(Debug, Clone, Copy, PartialEq, Eq, Structural)]
pub struct Color(pub u8, pub u8, pub u8);

/// Square of the difference of two channel values.
pub open spec fn channel_dis_2(a: u8, b: u8) -> int {
    (a as int - b as int) * (a as int - b as int)
}

/// Squared euclidean distance of two colours in RGB space.
pub open spec fn color_dis_2(a: Color, b: Color) -> int {
    channel_dis_2(a.0, b.0) + channel_dis_2(a.1, b.1) + channel_dis_2(a.2, b.2)
}

proof fn lemma_channel_dis_2_bounds(a: u8, b: u8)
    ensures
        0 <= channel_dis_2(a, b) <= 255 * 255,
{
    let d = a as int - b as int;
    assert(-255 <= d <= 255);
    assert(0 <= d * d <= 255 * 255) by (nonlinear_arith)
        requires
            -255 <= d <= 255,
    ;
}

impl Color {
    /// True when all three channels agree.
    pub fn eq(&self, other: &Color) -> (r: bool)
        ensures
            r == (*self == *other),
    {
        self.0 == other.0 && self.1 == other.1 && self.2 == other.2
    }

    /// Squared distance to another colour.
    pub fn dis_2(&self, other: &Color) -> (r: u32)
        ensures
            r as int == color_dis_2(*self, *other),
    {
        proof {
            lemma_channel_dis_2_bounds(self.0, other.0);
            lemma_channel_dis_2_bounds(self.1, other.1);
            lemma_channel_dis_2_bounds(self.2, other.2);
        }
        let d0: i32 = self.0 as i32 - other.0 as i32;
        let d1: i32 = self.1 as i32 - other.1 as i32;
        let d2: i32 = self.2 as i32 - other.2 as i32;
        assert(d0 * d0 == channel_dis_2(self.0, other.0));
        assert(d1 * d1 == channel_dis_2(self.1, other.1));
        assert(d2 * d2 == channel_dis_2(self.2, other.2));
        let dis: i32 = d0 * d0 + d1 * d1 + d2 * d2;
        dis as u32
    }

    /// Black.
    pub fn new() -> (r: Color)
        ensures
            r == Color(0, 0, 0),
    {
        Color(0, 0, 0)
    }

    /// A colour from its three channels.
    pub fn from(r: u8, g: u8, b: u8) -> (c: Color)
        ensures
            c == Color(r, g, b),
    {
        Color(r, g, b)
    }
}

} // verus!
