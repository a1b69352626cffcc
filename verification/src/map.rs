//! A grid of cells, drawn from a tileset. Coordinates handed in are pixels;
//! the grid maps them to tile indices with truncating division, so points
//! slightly left of or above the origin still land in column or row zero,
//! and anything past the edges is rejected.

use vstd::prelude::*;
use vstd::string::StringExecFns;

use crate::scene::Tile;

verus! {

/// Truncating division (toward zero, as the hardware divides), for a
/// positive divisor.
pub open spec fn div_trunc(a: int, b: int) -> int {
    if a >= 0 {
        a / b
    } else {
        -((-a) / b)
    }
}

fn div_trunc_i32(a: i32, b: i32) -> (r: i32)
    requires
        b >= 1,
    ensures
        r == div_trunc(a as int, b as int),
{
    if a >= 0 {
        ((a as u32) / (b as u32)) as i32
    } else {
        let m: u64 = ((-(a as i64)) as u64) / (b as u64);
        ((-(m as i64)) as i64) as i32
    }
}

proof fn lemma_mul_le(a: int, b: int, c: int)
    by (nonlinear_arith)
    requires
        0 <= a <= b,
        0 <= c,
    ensures
        a * c <= b * c,
{
}

proof fn lemma_row_bound(ty: int, tx: int, width: int, len: int)
    by (nonlinear_arith)
    requires
        width >= 1,
        0 <= tx < width,
        0 <= ty < len / width,
    ensures
        0 <= ty * width + tx < len,
{
}

/// A grid of cells, drawn from a tileset.
pub struct MapLayer {
    asset: String,
    tile_w: u32,
    tile_h: u32,
    width: u32,
    tiles: Vec<u32>,
}

impl MapLayer {
    /// The tileset asset the cells are drawn from.
    pub closed spec fn asset_id(self) -> Seq<char> {
        self.asset@
    }

    /// The width of one tile in pixels.
    pub closed spec fn tile_w(self) -> u32 {
        self.tile_w
    }

    /// The height of one tile in pixels.
    pub closed spec fn tile_h(self) -> u32 {
        self.tile_h
    }

    /// The width of the layer in tiles.
    pub closed spec fn width_spec(self) -> u32 {
        self.width
    }

    /// The cell values, row-major.
    pub closed spec fn tiles(self) -> Seq<u32> {
        self.tiles@
    }

    /// The height of the layer in tiles: how many whole rows the cells
    /// fill.
    pub open spec fn height_spec(self) -> int {
        self.tiles().len() as int / self.width_spec() as int
    }

    /// Tile sizes and width are positive, and everything a pixel
    /// computation can produce stays inside the `i32` range.
    pub closed spec fn wf(self) -> bool {
        &&& 1 <= self.tile_w <= i32::MAX
        &&& 1 <= self.tile_h <= i32::MAX
        &&& 1 <= self.width <= i32::MAX
        &&& self.tiles@.len() <= i32::MAX
    }

    /// A layer from its tileset asset, tile dimensions, width in tiles and
    /// cell values.
    pub fn new(asset: &str, dims: (u32, u32), width: u32, tiles: Vec<u32>) -> (r: MapLayer)
        requires
            1 <= dims.0 <= i32::MAX,
            1 <= dims.1 <= i32::MAX,
            1 <= width <= i32::MAX,
            tiles@.len() <= i32::MAX,
        ensures
            r.wf(),
            r.asset_id() == asset@,
            r.tile_w() == dims.0,
            r.tile_h() == dims.1,
            r.width_spec() == width,
            r.tiles() == tiles@,
    {
        let (tw, th) = dims;
        MapLayer { asset: String::from_str(asset), tile_w: tw, tile_h: th, width, tiles }
    }

    /// The tileset asset name.
    pub fn asset(&self) -> (r: &str)
        ensures
            r@ == self.asset_id(),
    {
        self.asset.as_str()
    }

    /// The tile dimensions in pixels.
    pub fn tile_size(&self) -> (r: (u32, u32))
        ensures
            r.0 == self.tile_w(),
            r.1 == self.tile_h(),
    {
        (self.tile_w, self.tile_h)
    }

    /// The stored cell values, row-major.
    pub fn tile_data(&self) -> (r: &Vec<u32>)
        ensures
            r@ == self.tiles(),
    {
        &self.tiles
    }

    /// The width (in tiles) of the map layer.
    pub fn width(&self) -> (r: u32)
        ensures
            r == self.width_spec(),
    {
        self.width
    }

    /// The height (in tiles) of the map layer.
    pub fn height(&self) -> (r: u32)
        requires
            self.wf(),
        ensures
            r == self.height_spec(),
    {
        (self.tiles.len() as u32) / self.width
    }

    /// The index of the tile containing a pixel point, when the point lies
    /// on the layer.
    pub open spec fn point_to_index_spec(self, px: int, py: int) -> Option<int> {
        let tx = div_trunc(px, self.tile_w() as int);
        let ty = div_trunc(py, self.tile_h() as int);
        if 0 <= tx < self.width_spec() && 0 <= ty < self.height_spec() {
            Some(ty * self.width_spec() + tx)
        } else {
            None
        }
    }

    /// Map a point in pixels to the index of the tile containing that
    /// point; `None` when the point lies off the layer. An index handed
    /// back always addresses a stored cell.
    pub fn point_to_index(&self, point: (i32, i32)) -> (r: Option<usize>)
        requires
            self.wf(),
        ensures
            match r {
                Some(i) => self.point_to_index_spec(point.0 as int, point.1 as int) == Some(
                    i as int,
                ) && i < self.tiles().len(),
                None => self.point_to_index_spec(point.0 as int, point.1 as int) is None,
            },
    {
        let (px, py) = point;
        let x = div_trunc_i32(px, self.tile_w as i32);
        let y = div_trunc_i32(py, self.tile_h as i32);

        // The map has a hard top-left edge at (0, 0); points beyond any
        // edge belong to no tile.
        let w = self.width as i32;
        let h = self.height() as i32;
        if x < 0 || x >= w || y < 0 || y >= h {
            return None;
        }

        proof {
            lemma_row_bound(y as int, x as int, self.width as int, self.tiles@.len() as int);
        }
        Some((y * w + x) as usize)
    }

    /// Get the tile value at a specified point (in pixels).
    pub fn _get_px(&self, point: (i32, i32)) -> (r: Option<u32>)
        requires
            self.wf(),
        ensures
            match self.point_to_index_spec(point.0 as int, point.1 as int) {
                Some(i) => r == Some(self.tiles()[i]),
                None => r is None,
            },
    {
        match self.point_to_index(point) {
            Some(index) => Some(self.tiles[index]),
            None => None,
        }
    }

    /// Set the tile value at a specified point (in pixels). The write lands
    /// exactly on the addressed cell; a point off the layer changes nothing
    /// and reports the error.
    pub fn set_px(&mut self, point: (i32, i32), tile: u32) -> (r: Result<(), ()>)
        requires
            old(self).wf(),
        ensures
            final(self).wf(),
            final(self).asset_id() == old(self).asset_id(),
            final(self).tile_w() == old(self).tile_w(),
            final(self).tile_h() == old(self).tile_h(),
            final(self).width_spec() == old(self).width_spec(),
            match old(self).point_to_index_spec(point.0 as int, point.1 as int) {
                Some(i) => r == Ok::<(), ()>(()) && final(self).tiles() == old(self).tiles().update(
                    i,
                    tile,
                ),
                None => r == Err::<(), ()>(()) && final(self).tiles() == old(self).tiles(),
            },
    {
        match self.point_to_index(point) {
            Some(index) => {
                self.tiles[index] = tile;
                Ok(())
            },
            None => Err(()),
        }
    }

    /// Render the layer: one tile per cell, row-major, each drawn at its
    /// pixel position in the grid.
    pub fn render(&self) -> (r: Vec<Tile>)
        requires
            self.wf(),
            (self.width_spec() - 1) * self.tile_w() <= i32::MAX,
            self.tiles().len() == 0 || ((self.tiles().len() - 1) as int / self.width_spec() as int)
                * self.tile_h() <= i32::MAX,
        ensures
            r@.len() == self.tiles().len(),
            forall|i: int|
                0 <= i < r@.len() ==> {
                    &&& (#[trigger] r@[i]).tileset@ == self.asset_id()
                    &&& r@[i].tile == self.tiles()[i]
                    &&& r@[i].width == self.tile_w()
                    &&& r@[i].height == self.tile_h()
                    &&& r@[i].x == (i % self.width_spec() as int) * self.tile_w()
                    &&& r@[i].y == (i / self.width_spec() as int) * self.tile_h()
                },
    {
        let mut result: Vec<Tile> = Vec::new();
        let n = self.tiles.len();
        let mut i: usize = 0;
        while i < n
            invariant
                self.wf(),
                (self.width_spec() - 1) * self.tile_w() <= i32::MAX,
                n == 0 || ((n - 1) as int / self.width_spec() as int) * self.tile_h() <= i32::MAX,
                n == self.tiles@.len(),
                i <= n,
                result@.len() == i,
                forall|j: int|
                    0 <= j < i ==> {
                        &&& (#[trigger] result@[j]).tileset@ == self.asset_id()
                        &&& result@[j].tile == self.tiles()[j]
                        &&& result@[j].width == self.tile_w()
                        &&& result@[j].height == self.tile_h()
                        &&& result@[j].x == (j % self.width_spec() as int) * self.tile_w()
                        &&& result@[j].y == (j / self.width_spec() as int) * self.tile_h()
                    },
            decreases n - i,
        {
            let col = (i as u32) % self.width;
            let row = (i as u32) / self.width;
            proof {
                lemma_mul_le(col as int, self.width as int - 1, self.tile_w as int);
                vstd::arithmetic::div_mod::lemma_div_is_ordered(
                    i as int,
                    n as int - 1,
                    self.width as int,
                );
                lemma_mul_le(
                    row as int,
                    (n - 1) as int / self.width as int,
                    self.tile_h as int,
                );
            }
            let x = col * self.tile_w;
            let y = row * self.tile_h;
            let tile = self.tiles[i];
            result.push(Tile::new(self.asset.as_str(), tile, self.tile_w, self.tile_h, x as i32, y as i32));
            i += 1;
        }
        result
    }
}

} // verus!
