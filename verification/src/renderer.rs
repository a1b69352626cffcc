//! Value-level geometry for the rendering layer: positioned and aligned
//! draw rectangles, and the tileset layout rule. The actual blitting lives
//! outside the library; everything here is plain data and integer math.

use vstd::prelude::*;
use vstd::string::StringExecFns;

verus! {

/// An axis-aligned rectangle in pixels.
#[derive(Clone, Copy, Debug, PartialEq, Eq, Structural)]
pub struct Rect {
    pub x: i32,
    pub y: i32,
    pub w: u32,
    pub h: u32,
}

impl Rect {
    /// A rectangle from its top-left corner and size.
    pub fn new(x: i32, y: i32, w: u32, h: u32) -> (r: Rect)
        ensures
            r == (Rect { x, y, w, h }),
    {
        Rect { x, y, w, h }
    }
}

/// An RGBA color.
#[derive(Clone, Copy, Debug, PartialEq, Eq, Structural)]
pub struct Color {
    pub r: u8,
    pub g: u8,
    pub b: u8,
    pub a: u8,
}

impl Color {
    /// A color from its four channels.
    pub fn rgba(r: u8, g: u8, b: u8, a: u8) -> (c: Color)
        ensures
            c == (Color { r, g, b, a }),
    {
        Color { r, g, b, a }
    }
}

/// Specifies a draw rect's horizontal position and alignment.
#[derive(Clone, Copy, Debug, PartialEq, Eq, Structural)]
pub enum HPos {
    Left(i32),
    Right(i32),
    Center(i32),
    Stretch(i32, usize),
}

/// Specifies a draw rect's vertical position and alignment.
#[derive(Clone, Copy, Debug, PartialEq, Eq, Structural)]
pub enum VPos {
    Top(i32),
    Bottom(i32),
    Center(i32),
    Stretch(i32, usize),
}

/// The left and right edge of a draw rect of natural width `width`, under a
/// horizontal alignment.
pub open spec fn h_span_spec(h: HPos, width: int) -> (int, int) {
    match h {
        HPos::Left(x) => (x as int, x + width),
        HPos::Right(x) => (x - width, x as int),
        HPos::Center(x) => (x - width / 2, x + width / 2),
        HPos::Stretch(x, w) => (x as int, x + w),
    }
}

/// The top and bottom edge of a draw rect of natural height `height`, under
/// a vertical alignment.
pub open spec fn v_span_spec(v: VPos, height: int) -> (int, int) {
    match v {
        VPos::Top(y) => (y as int, y + height),
        VPos::Bottom(y) => (y - height, y as int),
        VPos::Center(y) => (y - height / 2, y + height / 2),
        VPos::Stretch(y, h) => (y as int, y + h),
    }
}

/// Whether a horizontal span stays inside the `i32` range.
pub open spec fn h_span_fits(h: HPos, width: int) -> bool {
    let (x1, x2) = h_span_spec(h, width);
    i32::MIN <= x1 && x2 <= i32::MAX
}

/// Whether a vertical span stays inside the `i32` range.
pub open spec fn v_span_fits(v: VPos, height: int) -> bool {
    let (y1, y2) = v_span_spec(v, height);
    i32::MIN <= y1 && y2 <= i32::MAX
}

fn half_nonneg(n: i32) -> (r: i32)
    requires
        n >= 0,
    ensures
        r == n as int / 2,
{
    ((n as u32) / 2) as i32
}

/// Compute the horizontal edges of a draw rect.
pub fn h_span(h: HPos, width: i32) -> (r: (i32, i32))
    requires
        width >= 0,
        h_span_fits(h, width as int),
    ensures
        r.0 == h_span_spec(h, width as int).0,
        r.1 == h_span_spec(h, width as int).1,
{
    match h {
        HPos::Left(x) => (x, x + width),
        HPos::Right(x) => (x - width, x),
        HPos::Center(x) => {
            let half = half_nonneg(width);
            (x - half, x + half)
        },
        HPos::Stretch(x, w) => (x, ((x as i128) + (w as i128)) as i32),
    }
}

/// Compute the vertical edges of a draw rect.
pub fn v_span(v: VPos, height: i32) -> (r: (i32, i32))
    requires
        height >= 0,
        v_span_fits(v, height as int),
    ensures
        r.0 == v_span_spec(v, height as int).0,
        r.1 == v_span_spec(v, height as int).1,
{
    match v {
        VPos::Top(y) => (y, y + height),
        VPos::Bottom(y) => (y - height, y),
        VPos::Center(y) => {
            let half = half_nonneg(height);
            (y - half, y + half)
        },
        VPos::Stretch(y, h) => (y, ((y as i128) + (h as i128)) as i32),
    }
}

/// The destination rectangle for drawing a texture of natural size
/// `width` by `height` under the given alignment.
pub open spec fn aligned_rect_spec(h: HPos, v: VPos, width: int, height: int) -> Rect {
    let (x1, x2) = h_span_spec(h, width);
    let (y1, y2) = v_span_spec(v, height);
    Rect { x: x1 as i32, y: y1 as i32, w: (x2 - x1) as u32, h: (y2 - y1) as u32 }
}

/// Compute the destination rectangle for an aligned texture draw.
pub fn aligned_rect(h: HPos, v: VPos, width: i32, height: i32) -> (r: Rect)
    requires
        width >= 0,
        height >= 0,
        h_span_fits(h, width as int),
        v_span_fits(v, height as int),
    ensures
        r == aligned_rect_spec(h, v, width as int, height as int),
{
    let (x1, x2) = h_span(h, width);
    let (y1, y2) = v_span(v, height);
    Rect {
        x: x1,
        y: y1,
        w: ((x2 as i64) - (x1 as i64)) as u32,
        h: ((y2 as i64) - (y1 as i64)) as u32,
    }
}

/// The texture-cache key under which one rendered string is stored: a
/// reserved prefix, the font asset, a separator and the text itself, so
/// that equal text in equal fonts shares one texture.
pub open spec fn text_cache_id_spec(font: Seq<char>, content: Seq<char>) -> Seq<char> {
    seq![':', 'S', 'T', 'R', ':'] + font + seq![':'] + content
}

/// Compute the texture-cache key for a rendered string.
pub fn text_cache_id(font: &str, content: &str) -> (r: String)
    ensures
        r@ == text_cache_id_spec(font@, content@),
{
    proof {
        reveal_strlit(":STR:");
        reveal_strlit(":");
        assert(":STR:"@ =~= seq![':', 'S', 'T', 'R', ':']);
        assert(":"@ =~= seq![':']);
    }
    let mut s = String::from_str(":STR:");
    s.append(font);
    s.append(":");
    s.append(content);
    proof {
        assert(s@ =~= text_cache_id_spec(font@, content@));
    }
    s
}

/// Where tile `n` of a `w` by `h` tileset lies in its source image: the
/// tiles sit in one horizontal strip.
pub open spec fn tile_src_spec(n: u32, w: u32, h: u32) -> Rect {
    Rect { x: (n * w) as i32, y: 0, w, h }
}

/// The source rectangle of one tile in a tileset image.
pub fn tile_src_rect(n: u32, w: u32, h: u32) -> (r: Rect)
    requires
        n * w <= i32::MAX,
    ensures
        r == tile_src_spec(n, w, h),
{
    proof {
        assert(n as int * w as int >= 0) by (nonlinear_arith);
    }
    let x: i32 = ((n as u64) * (w as u64)) as i32;
    Rect { x, y: 0, w, h }
}

} // verus!
