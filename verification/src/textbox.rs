//! A bordered text box drawn from nine-patch-style parts: the corner,
//! edge-strip and side sprites of a box asset, aligned around a bounds
//! rectangle. Producing the sprites is pure; showing them is the
//! compositor's business.

use vstd::prelude::*;
use vstd::string::StringExecFns;

use crate::renderer::{HPos, Rect, VPos};
use crate::scene::Sprite;

verus! {

/// The asset path of one part of the box: the base path, a separator, and
/// the part's name.
pub open spec fn part_spec(base: Seq<char>, name: Seq<char>) -> Seq<char> {
    base + seq!['/'] + name
}

/// A text box asset and the rectangle its interior covers.
pub struct Textbox {
    base: String,
    bounds: Rect,
}

impl Textbox {
    /// The base path of the box asset.
    pub closed spec fn base_id(self) -> Seq<char> {
        self.base@
    }

    /// The interior rectangle.
    pub closed spec fn bounds_spec(self) -> Rect {
        self.bounds
    }

    /// A text box from its asset base path and interior bounds.
    pub fn new(base: &str, bounds: Rect) -> (r: Textbox)
        ensures
            r.base_id() == base@,
            r.bounds_spec() == bounds,
    {
        Textbox { base: String::from_str(base), bounds }
    }

    fn part(&self, name: &str) -> (r: String)
        ensures
            r@ == part_spec(self.base_id(), name@),
    {
        proof {
            reveal_strlit("/");
            assert("/"@ =~= seq!['/']);
        }
        let mut s = String::from_str(self.base.as_str());
        s.append("/");
        s.append(name);
        proof {
            assert(s@ =~= part_spec(self.base_id(), name@));
        }
        s
    }

    /// The eight border sprites of the box, clockwise from the top-left
    /// corner: corners sit outside the bounds, edge strips stretch along
    /// them.
    pub fn render(&self) -> (r: Vec<Sprite>)
        requires
            self.bounds_spec().x + self.bounds_spec().w <= i32::MAX,
            self.bounds_spec().y + self.bounds_spec().h <= i32::MAX,
        ensures
            r@.len() == 8,
            r@[0].name@ == part_spec(self.base_id(), seq!['t', 'l']),
            r@[0].hpos == HPos::Right(self.bounds_spec().x),
            r@[0].vpos == VPos::Bottom(self.bounds_spec().y),
            r@[1].name@ == part_spec(self.base_id(), seq!['t']),
            r@[1].hpos == HPos::Stretch(self.bounds_spec().x, self.bounds_spec().w as usize),
            r@[1].vpos == VPos::Bottom(self.bounds_spec().y),
            r@[2].name@ == part_spec(self.base_id(), seq!['t', 'r']),
            r@[2].hpos == HPos::Left((self.bounds_spec().x + self.bounds_spec().w) as i32),
            r@[2].vpos == VPos::Bottom(self.bounds_spec().y),
            r@[3].name@ == part_spec(self.base_id(), seq!['l']),
            r@[3].hpos == HPos::Right(self.bounds_spec().x),
            r@[3].vpos == VPos::Stretch(self.bounds_spec().y, self.bounds_spec().h as usize),
            r@[4].name@ == part_spec(self.base_id(), seq!['r']),
            r@[4].hpos == HPos::Left((self.bounds_spec().x + self.bounds_spec().w) as i32),
            r@[4].vpos == VPos::Stretch(self.bounds_spec().y, self.bounds_spec().h as usize),
            r@[5].name@ == part_spec(self.base_id(), seq!['b', 'l']),
            r@[5].hpos == HPos::Right(self.bounds_spec().x),
            r@[5].vpos == VPos::Top((self.bounds_spec().y + self.bounds_spec().h) as i32),
            r@[6].name@ == part_spec(self.base_id(), seq!['b']),
            r@[6].hpos == HPos::Stretch(self.bounds_spec().x, self.bounds_spec().w as usize),
            r@[6].vpos == VPos::Top((self.bounds_spec().y + self.bounds_spec().h) as i32),
            r@[7].name@ == part_spec(self.base_id(), seq!['b', 'r']),
            r@[7].hpos == HPos::Left((self.bounds_spec().x + self.bounds_spec().w) as i32),
            r@[7].vpos == VPos::Top((self.bounds_spec().y + self.bounds_spec().h) as i32),
    {
        proof {
            reveal_strlit("tl");
            reveal_strlit("t");
            reveal_strlit("tr");
            reveal_strlit("l");
            reveal_strlit("r");
            reveal_strlit("bl");
            reveal_strlit("b");
            reveal_strlit("br");
            assert("tl"@ =~= seq!['t', 'l']);
            assert("t"@ =~= seq!['t']);
            assert("tr"@ =~= seq!['t', 'r']);
            assert("l"@ =~= seq!['l']);
            assert("r"@ =~= seq!['r']);
            assert("bl"@ =~= seq!['b', 'l']);
            assert("b"@ =~= seq!['b']);
            assert("br"@ =~= seq!['b', 'r']);
        }
        let w = self.bounds.w as usize;
        let h = self.bounds.h as usize;
        let x = self.bounds.x;
        let y = self.bounds.y;
        let right = ((x as i64) + (self.bounds.w as i64)) as i32;
        let bottom = ((y as i64) + (self.bounds.h as i64)) as i32;

        let mut out: Vec<Sprite> = Vec::new();
        let tl = self.part("tl");
        out.push(Sprite::new(tl.as_str(), HPos::Right(x), VPos::Bottom(y)));
        let t = self.part("t");
        out.push(Sprite::new(t.as_str(), HPos::Stretch(x, w), VPos::Bottom(y)));
        let tr = self.part("tr");
        out.push(Sprite::new(tr.as_str(), HPos::Left(right), VPos::Bottom(y)));
        let l = self.part("l");
        out.push(Sprite::new(l.as_str(), HPos::Right(x), VPos::Stretch(y, h)));
        let rr = self.part("r");
        out.push(Sprite::new(rr.as_str(), HPos::Left(right), VPos::Stretch(y, h)));
        let bl = self.part("bl");
        out.push(Sprite::new(bl.as_str(), HPos::Right(x), VPos::Top(bottom)));
        let b = self.part("b");
        out.push(Sprite::new(b.as_str(), HPos::Stretch(x, w), VPos::Top(bottom)));
        let br = self.part("br");
        out.push(Sprite::new(br.as_str(), HPos::Left(right), VPos::Top(bottom)));
        out
    }
}

} // verus!
