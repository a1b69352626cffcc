//! A tile-picking widget: a strip of tiles from a tileset, scrollable by
//! whole tiles, with one selected tile highlighted. All of its behaviour is
//! integer geometry over the widget rectangle; drawing the produced shapes
//! is the compositor's business.

use vstd::prelude::*;
use vstd::string::StringExecFns;

use crate::renderer::{Color, Rect};
use crate::scene::{Rectangle, Tex};

verus! {

proof fn lemma_mul_le_tp(a: int, b: int, c: int)
    by (nonlinear_arith)
    requires
        0 <= a <= b,
        0 <= c,
    ensures
        0 <= a * c <= b * c,
{
}

proof fn lemma_mul_ge_one(a: int, c: int)
    by (nonlinear_arith)
    requires
        0 <= a,
        1 <= c,
    ensures
        a <= a * c,
{
}

proof fn lemma_mul_pos(a: int, c: int)
    by (nonlinear_arith)
    requires
        1 <= a,
        1 <= c,
    ensures
        1 <= a * c,
{
}

/// The widget: a tileset strip shown at a fixed display scale inside a
/// screen rectangle, with a scroll offset and a selected tile.
pub struct TilePicker {
    tileset: String,
    tile_width: u32,
    tile_height: u32,
    scale: u32,
    // widget has total ownership of its position for now
    rect: Rect,
    offset: u32,
    selected: u32,
}

impl TilePicker {
    /// The tileset asset the strip draws from.
    pub closed spec fn tileset_id(self) -> Seq<char> {
        self.tileset@
    }

    /// The width of one tile in the tileset, in pixels.
    pub closed spec fn tile_width_spec(self) -> u32 {
        self.tile_width
    }

    /// The height of one tile in the tileset, in pixels.
    pub closed spec fn tile_height_spec(self) -> u32 {
        self.tile_height
    }

    /// The display scale the strip is drawn at.
    pub closed spec fn scale_spec(self) -> u32 {
        self.scale
    }

    /// The screen rectangle the widget owns.
    pub closed spec fn rect_spec(self) -> Rect {
        self.rect
    }

    /// The scroll offset: the index of the leftmost shown tile.
    pub closed spec fn offset_spec(self) -> u32 {
        self.offset
    }

    /// The selected tile index.
    pub closed spec fn selected_spec(self) -> u32 {
        self.selected
    }

    /// The width of one displayed cell in pixels.
    pub open spec fn cell_w(self) -> int {
        self.tile_width_spec() * self.scale_spec()
    }

    /// The height of one displayed cell in pixels.
    pub open spec fn cell_h(self) -> int {
        self.tile_height_spec() * self.scale_spec()
    }

    /// How many tiles the strip shows at once.
    pub open spec fn shown(self) -> int {
        self.rect_spec().w as int / self.cell_w()
    }

    /// Geometry bounds under which every pixel computation of the widget
    /// stays representable.
    pub closed spec fn wf(self) -> bool {
        &&& 1 <= self.scale
        &&& 1 <= self.tile_width
        &&& 1 <= self.tile_height
        &&& self.tile_width * self.scale + 1 <= i32::MAX
        &&& self.tile_height * self.scale <= i32::MAX
        &&& self.rect.x + self.rect.w <= i32::MAX
        &&& self.rect.y + self.rect.h <= i32::MAX
        &&& self.offset <= i32::MAX
    }

    /// A picker over a tileset of `tile_width` by `tile_height` tiles,
    /// owning the given screen rectangle, drawn at four times the native
    /// tile size, scrolled to the start with the first tile selected.
    pub fn new(
        tileset: &str,
        tile_width: u32,
        tile_height: u32,
        x: i32,
        y: i32,
        width: u32,
        height: u32,
    ) -> (r: TilePicker)
        requires
            1 <= tile_width,
            1 <= tile_height,
            tile_width * 4 + 1 <= i32::MAX,
            tile_height * 4 <= i32::MAX,
            x + width <= i32::MAX,
            y + height <= i32::MAX,
        ensures
            r.wf(),
            r.tileset_id() == tileset@,
            r.tile_width_spec() == tile_width,
            r.tile_height_spec() == tile_height,
            r.scale_spec() == 4,
            r.rect_spec() == (Rect { x, y, w: width, h: height }),
            r.offset_spec() == 0,
            r.selected_spec() == 0,
    {
        TilePicker {
            tileset: String::from_str(tileset),
            tile_width,
            tile_height,
            scale: 4,
            rect: Rect { x, y, w: width, h: height },
            offset: 0,
            selected: 0,
        }
    }

    /// The selected tile index.
    pub fn selected(&self) -> (r: u32)
        ensures
            r == self.selected_spec(),
    {
        self.selected
    }

    /// Scroll by a signed amount of tiles: forward freely, backward only
    /// as far as the start of the strip (a scroll past it is ignored).
    pub fn scroll(&mut self, delta: i32)
        requires
            old(self).wf(),
            delta > 0 ==> old(self).offset_spec() + delta <= i32::MAX,
        ensures
            final(self).wf(),
            final(self).offset_spec() == if delta > 0 || old(self).offset_spec() >= -(delta as int) {
                (old(self).offset_spec() + delta) as u32
            } else {
                old(self).offset_spec()
            },
            final(self).selected_spec() == old(self).selected_spec(),
            final(self).tileset_id() == old(self).tileset_id(),
            final(self).tile_width_spec() == old(self).tile_width_spec(),
            final(self).tile_height_spec() == old(self).tile_height_spec(),
            final(self).scale_spec() == old(self).scale_spec(),
            final(self).rect_spec() == old(self).rect_spec(),
    {
        if delta > 0 {
            self.offset = self.offset + (delta as u32);
        } else {
            let mag = (-(delta as i64)) as u64;
            if (self.offset as u64) >= mag {
                self.offset = self.offset - (mag as u32);
            }
        }
    }

    /// Whether a point lies on the widget; the right and bottom edges
    /// count as hits.
    pub open spec fn hits(self, px: int, py: int) -> bool {
        &&& self.rect_spec().x <= px <= self.rect_spec().x + self.rect_spec().w
        &&& self.rect_spec().y <= py <= self.rect_spec().y + self.rect_spec().h
    }

    /// Handle a click at an absolute screen position: a hit selects the
    /// tile under the click (one displayed cell plus one pixel of padding
    /// per column) and reports true; a miss changes nothing.
    pub fn click(&mut self, abs_pos: (i32, i32)) -> (r: bool)
        requires
            old(self).wf(),
        ensures
            final(self).wf(),
            r == old(self).hits(abs_pos.0 as int, abs_pos.1 as int),
            final(self).selected_spec() == if old(self).hits(abs_pos.0 as int, abs_pos.1 as int) {
                old(self).offset_spec() + (abs_pos.0 - old(self).rect_spec().x) / (old(
                    self,
                ).cell_w() + 1)
            } else {
                old(self).selected_spec() as int
            },
            final(self).offset_spec() == old(self).offset_spec(),
            final(self).tileset_id() == old(self).tileset_id(),
            final(self).tile_width_spec() == old(self).tile_width_spec(),
            final(self).tile_height_spec() == old(self).tile_height_spec(),
            final(self).scale_spec() == old(self).scale_spec(),
            final(self).rect_spec() == old(self).rect_spec(),
    {
        let (x, y) = abs_pos;

        let right = ((self.rect.x as i64) + (self.rect.w as i64)) as i32;
        let bottom = ((self.rect.y as i64) + (self.rect.h as i64)) as i32;
        if x < self.rect.x || x > right || y < self.rect.y || y > bottom {
            return false;
        }

        // Select a new tile.
        proof {
            lemma_mul_pos(self.tile_width as int, self.scale as int);
        }
        let x_rel = ((x as i64) - (self.rect.x as i64)) as u32;
        let dx = self.tile_width * self.scale + 1;
        let col = x_rel / dx;
        proof {
            vstd::arithmetic::div_mod::lemma_div_is_ordered_by_denominator(
                x_rel as int,
                2,
                dx as int,
            );
        }
        self.selected = col + self.offset;
        true
    }

    /// Render the tileset picker: a dark backdrop, one texture cutout per
    /// shown tile, and a red highlight behind the selected tile when it is
    /// on screen.
    pub fn render(&self) -> (r: (Vec<Rectangle>, Vec<Tex>))
        requires
            self.wf(),
            (self.offset_spec() + self.shown()) * self.tile_width_spec() <= i32::MAX,
            self.shown() * (self.cell_w() + 1) <= i32::MAX,
        ensures
            r.1@.len() == self.shown(),
            forall|i: int|
                0 <= i < r.1@.len() ==> {
                    &&& (#[trigger] r.1@[i]).asset@ == self.tileset_id()
                    &&& r.1@[i].src == Some(
                        Rect {
                            x: ((i + self.offset_spec()) * self.tile_width_spec()) as i32,
                            y: 0,
                            w: self.tile_width_spec(),
                            h: self.tile_height_spec(),
                        },
                    )
                    &&& r.1@[i].dst == (Rect {
                        x: (i * (self.cell_w() + 1)) as i32,
                        y: 1,
                        w: self.cell_w() as u32,
                        h: self.cell_h() as u32,
                    })
                },
            r.0@.len() == if self.offset_spec() <= self.selected_spec() < self.offset_spec()
                + self.shown() {
                2int
            } else {
                1int
            },
            r.0@[0] == (Rectangle {
                rect: self.rect_spec(),
                color: Color { r: 32, g: 32, b: 32, a: 255 },
                filled: true,
            }),
            (self.offset_spec() <= self.selected_spec() < self.offset_spec() + self.shown())
                ==> r.0@[1] == (Rectangle {
                rect: Rect {
                    x: ((self.selected_spec() - self.offset_spec()) * (self.cell_w() + 1)
                        - 1) as i32,
                    y: 0,
                    w: (self.cell_w() + 2) as u32,
                    h: (self.cell_h() + 2) as u32,
                },
                color: Color { r: 255, g: 0, b: 0, a: 255 },
                filled: true,
            }),
    {
        // First, fill the whole space with a sexy dark rectangle.
        let mut rects: Vec<Rectangle> = Vec::new();
        rects.push(Rectangle::filled(self.rect, Color::rgba(32, 32, 32, 255)));

        let mut tiles: Vec<Tex> = Vec::new();

        // Target render dimensions for each displayed cell.
        let w = self.tile_width * self.scale;
        let h = self.tile_height * self.scale;
        let padding: u32 = 1;

        proof {
            lemma_mul_pos(self.tile_width as int, self.scale as int);
        }
        let n = self.rect.w / w;

        let ghost sel_shown = self.offset_spec() <= self.selected_spec() < self.offset_spec()
            + self.shown();

        let mut i: u32 = 0;
        while i < n
            invariant
                self.wf(),
                (self.offset_spec() + self.shown()) * self.tile_width_spec() <= i32::MAX,
                self.shown() * (self.cell_w() + 1) <= i32::MAX,
                w == self.cell_w(),
                h == self.cell_h(),
                padding == 1,
                n == self.shown(),
                i <= n,
                sel_shown == (self.offset_spec() <= self.selected_spec() < self.offset_spec()
                    + self.shown()),
                tiles@.len() == i,
                forall|j: int|
                    0 <= j < i ==> {
                        &&& (#[trigger] tiles@[j]).asset@ == self.tileset_id()
                        &&& tiles@[j].src == Some(
                            Rect {
                                x: ((j + self.offset_spec()) * self.tile_width_spec()) as i32,
                                y: 0,
                                w: self.tile_width_spec(),
                                h: self.tile_height_spec(),
                            },
                        )
                        &&& tiles@[j].dst == (Rect {
                            x: (j * (self.cell_w() + 1)) as i32,
                            y: 1,
                            w: self.cell_w() as u32,
                            h: self.cell_h() as u32,
                        })
                    },
                rects@.len() == if self.offset_spec() <= self.selected_spec()
                    < self.offset_spec() + i {
                    2int
                } else {
                    1int
                },
                rects@[0] == (Rectangle {
                    rect: self.rect_spec(),
                    color: Color { r: 32, g: 32, b: 32, a: 255 },
                    filled: true,
                }),
                (self.offset_spec() <= self.selected_spec() < self.offset_spec() + i)
                    ==> rects@[1] == (Rectangle {
                    rect: Rect {
                        x: ((self.selected_spec() - self.offset_spec()) * (self.cell_w() + 1)
                            - 1) as i32,
                        y: 0,
                        w: (self.cell_w() + 2) as u32,
                        h: (self.cell_h() + 2) as u32,
                    },
                    color: Color { r: 255, g: 0, b: 0, a: 255 },
                    filled: true,
                }),
            decreases n - i,
        {
            proof {
                lemma_mul_ge_one(
                    self.offset_spec() + self.shown(),
                    self.tile_width_spec() as int,
                );
                lemma_mul_le_tp(
                    i as int + self.offset_spec(),
                    self.offset_spec() + self.shown(),
                    self.tile_width_spec() as int,
                );
                lemma_mul_le_tp(i as int, self.shown(), self.cell_w() + 1);
            }
            let tile = i + self.offset;
            let src = Rect::new(((tile as u64) * (self.tile_width as u64)) as i32, 0,
                self.tile_width, self.tile_height);
            let dst = Rect::new(((i as u64) * ((w + padding) as u64)) as i32, padding as i32, w, h);

            tiles.push(Tex::new(self.tileset.as_str(), Some(src), dst));

            // Add a highlight rectangle if this tile is selected.
            if tile == self.selected {
                rects.push(
                    Rectangle::filled(
                        Rect::new(
                            (((i as u64) * ((w + padding) as u64)) as i32) - (padding as i32),
                            0,
                            w + 2 * padding,
                            h + 2 * padding,
                        ),
                        Color::rgba(255, 0, 0, 255),
                    ),
                );
            }
            i += 1;
        }

        (rects, tiles)
    }
}

} // verus!
