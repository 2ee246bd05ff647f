//! Pixels and the fixed-point colour transform from red/green/blue to
//! luma/chroma.

use vstd::prelude::*;

verus! {

/// Where the four channels of an interleaved pixel sit within its four bytes.
#[derive(Clone, Copy, Debug, PartialEq, Eq, Structural)]
pub enum ChannelOrder {
    /// red, green, blue, alpha
    Rgba,
    /// blue, green, red, alpha
    Bgra,
    /// alpha, red, green, blue
    Argb,
    /// alpha, blue, green, red
    Abgr,
}

impl ChannelOrder {
    /// Byte position of the red channel.
    pub open spec fn red_index(self) -> int {
        match self {
            ChannelOrder::Rgba => 0,
            ChannelOrder::Bgra => 2,
            ChannelOrder::Argb => 1,
            ChannelOrder::Abgr => 3,
        }
    }

    /// Byte position of the green channel.
    pub open spec fn green_index(self) -> int {
        match self {
            ChannelOrder::Rgba => 1,
            ChannelOrder::Bgra => 1,
            ChannelOrder::Argb => 2,
            ChannelOrder::Abgr => 2,
        }
    }

    /// Byte position of the blue channel.
    pub open spec fn blue_index(self) -> int {
        match self {
            ChannelOrder::Rgba => 2,
            ChannelOrder::Bgra => 0,
            ChannelOrder::Argb => 3,
            ChannelOrder::Abgr => 1,
        }
    }

    /// Byte position of the alpha channel.
    pub open spec fn alpha_index(self) -> int {
        match self {
            ChannelOrder::Rgba => 3,
            ChannelOrder::Bgra => 3,
            ChannelOrder::Argb => 0,
            ChannelOrder::Abgr => 0,
        }
    }

    /// Byte position of the red channel.
    pub fn red(self) -> (i: usize)
        ensures
            i == self.red_index(),
    {
        match self {
            ChannelOrder::Rgba => 0,
            ChannelOrder::Bgra => 2,
            ChannelOrder::Argb => 1,
            ChannelOrder::Abgr => 3,
        }
    }

    /// Byte position of the green channel.
    pub fn green(self) -> (i: usize)
        ensures
            i == self.green_index(),
    {
        match self {
            ChannelOrder::Rgba => 1,
            ChannelOrder::Bgra => 1,
            ChannelOrder::Argb => 2,
            ChannelOrder::Abgr => 2,
        }
    }

    /// Byte position of the blue channel.
    pub fn blue(self) -> (i: usize)
        ensures
            i == self.blue_index(),
    {
        match self {
            ChannelOrder::Rgba => 2,
            ChannelOrder::Bgra => 0,
            ChannelOrder::Argb => 3,
            ChannelOrder::Abgr => 1,
        }
    }

    /// Byte position of the alpha channel.
    pub fn alpha(self) -> (i: usize)
        ensures
            i == self.alpha_index(),
    {
        match self {
            ChannelOrder::Rgba => 3,
            ChannelOrder::Bgra => 3,
            ChannelOrder::Argb => 0,
            ChannelOrder::Abgr => 0,
        }
    }
}

impl Default for ChannelOrder {
    fn default() -> (order: Self)
        ensures
            order == ChannelOrder::Rgba,
    {
        ChannelOrder::Rgba
    }
}

/// The four positions of a channel order are a permutation of `0..4`.
pub proof fn channel_positions_distinct(order: ChannelOrder)
    ensures
        0 <= order.red_index() < 4,
        0 <= order.green_index() < 4,
        0 <= order.blue_index() < 4,
        0 <= order.alpha_index() < 4,
        order.red_index() != order.green_index(),
        order.red_index() != order.blue_index(),
        order.red_index() != order.alpha_index(),
        order.green_index() != order.blue_index(),
        order.green_index() != order.alpha_index(),
        order.blue_index() != order.alpha_index(),
{
}

/// Luma of a colour: `((66 R + 129 G + 25 B + 128) >> 8) + 16`, the shift
/// being a division by 256 that rounds down.
pub open spec fn luma(r: int, g: int, b: int) -> int {
    (66 * r + 129 * g + 25 * b + 128) / 256 + 16
}

/// Blue-difference chroma: `((-38 R - 74 G + 112 B + 128) >> 8) + 128`.
pub open spec fn chroma_blue(r: int, g: int, b: int) -> int {
    (-38 * r - 74 * g + 112 * b + 128) / 256 + 128
}

/// Red-difference chroma: `((112 R - 94 G - 18 B + 128) >> 8) + 128`.
pub open spec fn chroma_red(r: int, g: int, b: int) -> int {
    (112 * r - 94 * g - 18 * b + 128) / 256 + 128
}

/// One luma/chroma pixel.
#[derive(Clone, Copy, Debug, PartialEq, Eq, Structural)]
pub struct Yuv {
    pub y: u8,
    pub u: u8,
    pub v: u8,
}

/// The luma/chroma pixel of a colour given by its three channels.
pub open spec fn yuv_of(r: u8, g: u8, b: u8) -> Yuv {
    Yuv {
        y: luma(r as int, g as int, b as int) as u8,
        u: chroma_blue(r as int, g as int, b as int) as u8,
        v: chroma_red(r as int, g as int, b as int) as u8,
    }
}

/// For 8-bit channels the three samples stay within the nominal video range,
/// so that storing them in a byte loses nothing.
pub proof fn samples_in_video_range(r: u8, g: u8, b: u8)
    ensures
        16 <= luma(r as int, g as int, b as int) <= 235,
        16 <= chroma_blue(r as int, g as int, b as int) <= 240,
        16 <= chroma_red(r as int, g as int, b as int) <= 240,
        yuv_of(r, g, b).y == luma(r as int, g as int, b as int),
        yuv_of(r, g, b).u == chroma_blue(r as int, g as int, b as int),
        yuv_of(r, g, b).v == chroma_red(r as int, g as int, b as int),
{
}

/// An arithmetic right shift by eight bits is a division by 256 that rounds
/// down, for negative numbers too.
proof fn shift_rounds_down(x: i32)
    by (bit_vector)
    requires
        -65536 <= x <= 65536,
    ensures
        x >> 8 == x / 256,
{
}

/// One interleaved pixel of four 8-bit channels.
#[derive(Clone, Copy, Debug)]
pub struct Rgba(pub [u8; 4]);

impl Rgba {
    /// The red channel under a given channel order.
    pub open spec fn red(self, order: ChannelOrder) -> u8 {
        self.0@[order.red_index()]
    }

    /// The green channel under a given channel order.
    pub open spec fn green(self, order: ChannelOrder) -> u8 {
        self.0@[order.green_index()]
    }

    /// The blue channel under a given channel order.
    pub open spec fn blue(self, order: ChannelOrder) -> u8 {
        self.0@[order.blue_index()]
    }

    /// The luma/chroma pixel this pixel turns into. The alpha channel has no
    /// part in it.
    pub open spec fn yuv(self, order: ChannelOrder) -> Yuv {
        yuv_of(self.red(order), self.green(order), self.blue(order))
    }

    /// Converts the pixel with the fixed-point transform, reading the colour
    /// channels at the positions `order` gives and discarding alpha.
    pub fn into_yuv(self, order: ChannelOrder) -> (yuv: Yuv)
        ensures
            yuv == self.yuv(order),
            yuv.y == luma(
                self.red(order) as int,
                self.green(order) as int,
                self.blue(order) as int,
            ),
            yuv.u == chroma_blue(
                self.red(order) as int,
                self.green(order) as int,
                self.blue(order) as int,
            ),
            yuv.v == chroma_red(
                self.red(order) as int,
                self.green(order) as int,
                self.blue(order) as int,
            ),
    {
        let r: i32 = self.0[order.red()] as i32;
        let g: i32 = self.0[order.green()] as i32;
        let b: i32 = self.0[order.blue()] as i32;

        let y_sum: i32 = 66 * r + 129 * g + 25 * b + 128;
        let u_sum: i32 = 112 * b - 38 * r - 74 * g + 128;
        let v_sum: i32 = 112 * r - 94 * g - 18 * b + 128;
        proof {
            shift_rounds_down(y_sum);
            shift_rounds_down(u_sum);
            shift_rounds_down(v_sum);
        }
        let y: i32 = (y_sum >> 8) + 16;
        let u: i32 = (u_sum >> 8) + 128;
        let v: i32 = (v_sum >> 8) + 128;

        Yuv { y: y as u8, u: u as u8, v: v as u8 }
    }
}

impl From<[u8; 4]> for Rgba {
    fn from(value: [u8; 4]) -> (pixel: Self) {
        Rgba(value)
    }
}

impl vstd::std_specs::convert::FromSpecImpl<[u8; 4]> for Rgba {
    open spec fn obeys_from_spec() -> bool {
        true
    }

    open spec fn from_spec(value: [u8; 4]) -> Self {
        Rgba(value)
    }
}

} // verus!
