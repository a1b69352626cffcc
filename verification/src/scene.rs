//! Value types describing what is shown on screen. Each one is plain data:
//! the compositor outside the library turns them into texture copies.

use vstd::prelude::*;
use vstd::string::StringExecFns;

use crate::renderer::{Color, HPos, Rect, VPos};

verus! {

/// A scene instruction: something to show and the z-index at which it is
/// to be shown.
pub struct Instruction<T> {
    pub z_index: i32,
    pub object: T,
}

/// The index of the rearmost instruction: the first one whose z-index is
/// no greater than any other's. The rearmost is shown first, so everything
/// else paints over it.
pub open spec fn rear_of<T>(s: Seq<Instruction<T>>) -> int
    decreases s.len(),
{
    if s.len() <= 1 {
        0
    } else {
        let r = rear_of(s.drop_last());
        if s.last().z_index < s[r].z_index {
            s.len() - 1
        } else {
            r
        }
    }
}

/// The rearmost index addresses an instruction, and no other instruction
/// sits behind it.
pub proof fn lemma_rear_is_rearmost<T>(s: Seq<Instruction<T>>)
    requires
        s.len() > 0,
    ensures
        0 <= rear_of(s) < s.len(),
        forall|i: int| 0 <= i < s.len() ==> s[rear_of(s)].z_index <= (#[trigger] s[i]).z_index,
    decreases s.len(),
{
    if s.len() > 1 {
        let sp = s.drop_last();
        lemma_rear_is_rearmost(sp);
        assert forall|i: int| 0 <= i < s.len() implies s[rear_of(s)].z_index <= (#[trigger] s[i]).z_index by {
            if i < s.len() - 1 {
                assert(sp[i] == s[i]);
                assert(sp[rear_of(sp)].z_index <= sp[i].z_index);
            }
        }
    }
}

/// A place where visible things are gathered before being shown in
/// z-index order.
pub struct Scene<T> {
    elements: Vec<Instruction<T>>,
}

impl<T> Scene<T> {
    /// The gathered instructions, in insertion order.
    pub closed spec fn view(self) -> Seq<Instruction<T>> {
        self.elements@
    }

    /// An empty scene.
    pub fn new() -> (s: Scene<T>)
        ensures
            s.view() == Seq::<Instruction<T>>::empty(),
    {
        Scene { elements: Vec::new() }
    }

    /// Add one object at a z-index.
    pub fn add(&mut self, element: T, z_index: i32)
        ensures
            final(self).view() == old(self).view().push(
                (Instruction { z_index, object: element }),
            ),
    {
        self.elements.push(Instruction { z_index, object: element });
    }

    /// Add multiple objects with the same z-index, in their given order.
    pub fn add_all(&mut self, elements: Vec<T>, z_index: i32)
        ensures
            final(self).view() == old(self).view() + elements@.map_values(
                (|e: T| Instruction { z_index, object: e }),
            ),
    {
        let ghost incoming = elements@;
        let mut rest = elements;
        let ghost view0 = self.view();
        let ghost mut taken: int = 0;
        while rest.len() > 0
            invariant
                0 <= taken,
                taken + rest@.len() == incoming.len(),
                rest@ == incoming.subrange(taken, incoming.len() as int),
                self.view() == view0 + incoming.subrange(0, taken).map_values(
                    (|e: T| Instruction { z_index, object: e }),
                ),
            decreases rest@.len(),
        {
            let e = rest.remove(0);
            self.elements.push(Instruction { z_index, object: e });
            proof {
                taken = taken + 1;
                assert(incoming.subrange(0, taken).map_values(
                    (|e: T| Instruction { z_index, object: e }),
                ) =~= incoming.subrange(0, taken - 1).map_values(
                    (|e: T| Instruction { z_index, object: e }),
                ).push((Instruction { z_index, object: incoming[taken - 1] })));
                assert(rest@ =~= incoming.subrange(taken, incoming.len() as int));
            }
        }
        proof {
            assert(incoming.subrange(0, incoming.len() as int) =~= incoming);
        }
    }

    /// Remove the rearmost instruction from the scene and return it. The
    /// scene must not be empty.
    pub fn pop(&mut self) -> (r: Instruction<T>)
        requires
            old(self).view().len() > 0,
        ensures
            r == old(self).view()[rear_of(old(self).view())],
            final(self).view() == old(self).view().remove(rear_of(old(self).view())),
    {
        let ghost s = self.view();
        let mut best: usize = 0;
        let mut i: usize = 1;
        while i < self.elements.len()
            invariant
                s == self.view(),
                0 < s.len(),
                1 <= i <= s.len(),
                best < i,
                best == rear_of(s.subrange(0, i as int)),
            decreases s.len() - i,
        {
            proof {
                lemma_rear_is_rearmost(s.subrange(0, i as int));
                assert(s.subrange(0, i as int + 1).drop_last() =~= s.subrange(0, i as int));
            }
            if self.elements[i].z_index < self.elements[best].z_index {
                best = i;
            }
            i += 1;
        }
        proof {
            assert(s.subrange(0, s.len() as int) =~= s);
        }
        self.elements.remove(best)
    }
}

/// A single texture copy with specified source and destination. The most
/// primitive texture-based visible object.
#[derive(Clone, Debug)]
pub struct Tex {
    pub asset: String,
    pub src: Option<Rect>,
    pub dst: Rect,
}

impl Tex {
    /// A texture copy from an asset name, an optional source cutout and a
    /// destination rectangle.
    pub fn new(asset: &str, src: Option<Rect>, dst: Rect) -> (r: Tex)
        ensures
            r.asset@ == asset@,
            r.src == src,
            r.dst == dst,
    {
        Tex { asset: String::from_str(asset), src, dst }
    }
}

/// A single texture drawn at its native scale, using dimension-aware
/// alignment.
#[derive(Clone, Debug)]
pub struct Sprite {
    pub name: String,
    pub hpos: HPos,
    pub vpos: VPos,
}

impl Sprite {
    /// A sprite from an asset name and its two alignments.
    pub fn new(name: &str, h: HPos, v: VPos) -> (r: Sprite)
        ensures
            r.name@ == name@,
            r.hpos == h,
            r.vpos == v,
    {
        Sprite { name: String::from_str(name), hpos: h, vpos: v }
    }
}

/// A sprite from an asset name and its two alignments.
pub fn sprite(name: &str, h: HPos, v: VPos) -> (r: Sprite)
    ensures
        r.name@ == name@,
        r.hpos == h,
        r.vpos == v,
{
    Sprite::new(name, h, v)
}

/// A tile drawn from a tileset.
#[derive(Clone, Debug)]
pub struct Tile {
    pub tileset: String,
    pub tile: u32,
    pub width: u32,
    pub height: u32,
    pub x: i32,
    pub y: i32,
}

impl Tile {
    /// Tile `tile` of a `w` by `h` tileset, drawn at `(x, y)`.
    pub fn new(tileset: &str, tile: u32, w: u32, h: u32, x: i32, y: i32) -> (r: Tile)
        ensures
            r.tileset@ == tileset@,
            r.tile == tile,
            r.width == w,
            r.height == h,
            r.x == x,
            r.y == y,
    {
        Tile { tileset: String::from_str(tileset), tile, width: w, height: h, x, y }
    }
}

/// Text displayed in a given font.
#[derive(Clone, Debug)]
pub struct Text {
    pub text: String,
    pub font: String,
    pub x: i32,
    pub y: i32,
}

impl Text {
    /// A text object from its content, font asset and center position.
    pub fn new(content: &str, font: &str, x: i32, y: i32) -> (r: Text)
        ensures
            r.text@ == content@,
            r.font@ == font@,
            r.x == x,
            r.y == y,
    {
        Text { text: String::from_str(content), font: String::from_str(font), x, y }
    }
}

/// A text object from its content, font asset and center position.
pub fn text(content: &str, font: &str, x: i32, y: i32) -> (r: Text)
    ensures
        r.text@ == content@,
        r.font@ == font@,
        r.x == x,
        r.y == y,
{
    Text::new(content, font, x, y)
}

/// A plain rectangle. Woo, rectangles.
#[derive(Clone, Copy, Debug, PartialEq, Eq, Structural)]
pub struct Rectangle {
    pub rect: Rect,
    pub color: Color,
    pub filled: bool,
}

impl Rectangle {
    /// A filled rectangle.
    pub fn filled(rect: Rect, color: Color) -> (r: Rectangle)
        ensures
            r == (Rectangle { rect, color, filled: true }),
    {
        Rectangle { rect, color, filled: true }
    }

    /// An outlined, unfilled rectangle.
    pub fn _unfilled(rect: Rect, color: Color) -> (r: Rectangle)
        ensures
            r == (Rectangle { rect, color, filled: false }),
    {
        Rectangle { rect, color, filled: false }
    }
}

} // verus!
