//! Screen orientation, logical screen geometry and RGB565 colour packing.

use vstd::prelude::*;
use crate::framebuffer::{Framebuffer, Rect};

verus! {

/// One of the four screen layouts.
#[derive(Debug, Clone, Copy, PartialEq, Eq, Structural)]
pub enum Orientation {
    Landscape,
    LandscapeFlipped,
    Portrait,
    PortraitFlipped,
}

impl Orientation {
    /// True for the two wide layouts.
    pub open spec fn landscape(self) -> bool {
        self is Landscape || self is LandscapeFlipped
    }

    /// True for the two layouts that are mirrored on both axes.
    pub open spec fn flipped(self) -> bool {
        self is LandscapeFlipped || self is PortraitFlipped
    }

    #[verifier::when_used_as_spec(landscape)]
    pub fn is_landscape(self) -> (r: bool)
        ensures
            r == self.landscape(),
    {
        match self {
            Orientation::Landscape | Orientation::LandscapeFlipped => true,
            _ => false,
        }
    }

    pub fn is_portrait(self) -> (r: bool)
        ensures
            r == !self.landscape(),
    {
        match self {
            Orientation::Portrait | Orientation::PortraitFlipped => true,
            _ => false,
        }
    }

    pub fn is_flipped(self) -> (r: bool)
        ensures
            r == self.flipped(),
    {
        match self {
            Orientation::LandscapeFlipped | Orientation::PortraitFlipped => true,
            _ => false,
        }
    }
}

pub const SCREEN_W_LANDSCAPE: i32 = 480;

pub const SCREEN_H_LANDSCAPE: i32 = 320;

pub const SCREEN_W_PORTRAIT: i32 = 320;

pub const SCREEN_H_PORTRAIT: i32 = 480;

/// Height of the header band; the separator line is drawn at this row.
pub const HEADER_LINE_Y: i32 = 30;

pub const CARD_MARGIN: i32 = 8;

pub const CARD_RADIUS: i32 = 12;

/// Number of daily rows shown by the forecast view.
pub const FORECAST_ROWS: usize = 4;

pub const INFO_CARD_Y: i32 = 40;

/// Logical screen width of an orientation, as a mathematical integer.
pub open spec fn logical_width(orientation: Orientation) -> int {
    if orientation.landscape() {
        480
    } else {
        320
    }
}

/// Logical screen height of an orientation, as a mathematical integer.
pub open spec fn logical_height(orientation: Orientation) -> int {
    if orientation.landscape() {
        320
    } else {
        480
    }
}

pub fn screen_w(orientation: Orientation) -> (w: i32)
    ensures
        w == logical_width(orientation),
{
    if orientation.is_landscape() {
        SCREEN_W_LANDSCAPE
    } else {
        SCREEN_W_PORTRAIT
    }
}

pub fn screen_h(orientation: Orientation) -> (h: i32)
    ensures
        h == logical_height(orientation),
{
    if orientation.is_landscape() {
        SCREEN_H_LANDSCAPE
    } else {
        SCREEN_H_PORTRAIT
    }
}

pub fn screen_size(orientation: Orientation) -> (size: (i32, i32))
    ensures
        size.0 == logical_width(orientation),
        size.1 == logical_height(orientation),
{
    (screen_w(orientation), screen_h(orientation))
}

/// The RGB565 word of an 8-bit-per-channel colour: the top five bits of red,
/// the top six of green and the top five of blue, red in the high bits.
pub open spec fn rgb565(r: u8, g: u8, b: u8) -> u16 {
    (((r >> 3) as u16) << 11) | (((g >> 2) as u16) << 5) | ((b >> 3) as u16)
}

/// What `Rgb565::new` followed by the conversion to raw storage yields: each
/// channel is cut to its width and placed at its bit position.
pub open spec fn rgb565_word(r: u8, g: u8, b: u8) -> u16 {
    (((r & 0x1f) as u16) << 11) | (((g & 0x3f) as u16) << 5) | ((b & 0x1f) as u16)
}

/// Calls `embedded_graphics::pixelcolor::Rgb565::new` and reads the colour
/// back as its raw 16-bit storage word through `RawU16`. The contract repeats
/// the crate's statement that over-wide channel values lose their upper bits
/// and that red, green and blue sit at bits 11, 5 and 0.
#[verifier::external_body]
fn rgb565_storage(r: u8, g: u8, b: u8) -> (raw: u16)
    ensures
        raw == rgb565_word(r, g, b),
{
    let color = embedded_graphics::pixelcolor::Rgb565::new(r, g, b);
    let word: embedded_graphics::pixelcolor::raw::RawU16 = color.into();
    embedded_graphics::pixelcolor::raw::RawData::into_inner(word)
}

/// Converts 8-bit RGB to the panel's RGB565 word.
pub fn rgb(r: u8, g: u8, b: u8) -> (raw: u16)
    ensures
        raw == rgb565(r, g, b),
{
    let r5: u8 = r >> 3;
    let g6: u8 = g >> 2;
    let b5: u8 = b >> 3;
    assert((r >> 3) & 0x1f == r >> 3) by (bit_vector);
    assert((g >> 2) & 0x3f == g >> 2) by (bit_vector);
    assert((b >> 3) & 0x1f == b >> 3) by (bit_vector);
    rgb565_storage(r5, g6, b5)
}

/// Fills the row `y` across the whole width of the framebuffer. A row
/// outside the buffer changes nothing.
pub fn draw_hline(fb: &mut Framebuffer, y: i32, color: u16)
    requires
        old(fb)@.wf(),
    ensures
        final(fb)@.is_filled_from(
            old(fb)@,
            Rect { x: 0, y, width: old(fb)@.width as u32, height: 1 },
            color,
        ),
        final(fb)@.wf(),
{
    let (width, _height): (u32, u32) = fb.size();
    let line = Rect { x: 0, y, width, height: 1 };
    fb.fill_solid(&line, color);
}

} // verus!
