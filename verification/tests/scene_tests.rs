use tarnished::renderer::{aligned_rect, text_cache_id, tile_src_rect, Color, HPos, Rect, VPos};
use tarnished::scene::{sprite, text, Rectangle, Scene, Tile};

#[test]
fn scene_pop_works() {
    let fore = 1u32;
    let back = 2u32;

    let mut s = Scene::new();
    s.add(fore, 10);
    s.add(back, 0);

    s.pop();
    s.pop();
}

#[test]
fn scene_pops_rearmost_first() {
    let mut s = Scene::new();
    s.add("hud", 2);
    s.add("map", -1);
    s.add("hero", 0);
    s.add_all(vec!["box1", "box2"], 1);

    let rearmost = s.pop();
    assert_eq!((rearmost.z_index, rearmost.object), (-1, "map"));
    assert_eq!(s.pop().object, "hero");
    // Equal z-indexes leave in insertion order.
    assert_eq!(s.pop().object, "box1");
    assert_eq!(s.pop().object, "box2");
    assert_eq!(s.pop().object, "hud");
}

#[test]
fn tile_new_holds_fields() {
    let t = Tile::new("assets/cotp", 3, 16, 16, 32, 48);
    assert_eq!(t.tileset, "assets/cotp");
    assert_eq!(t.tile, 3);
    assert_eq!((t.width, t.height), (16, 16));
    assert_eq!((t.x, t.y), (32, 48));
}

#[test]
fn sprite_and_text_constructors() {
    let s = sprite("assets/starmanjr", HPos::Center(200), VPos::Center(125));
    assert_eq!(s.name, "assets/starmanjr");
    assert_eq!(s.hpos, HPos::Center(200));
    assert_eq!(s.vpos, VPos::Center(125));

    let t = text("$0.00", "assets/orangekid", 30, 18);
    assert_eq!(t.text, "$0.00");
    assert_eq!(t.font, "assets/orangekid");
    assert_eq!((t.x, t.y), (30, 18));
}

#[test]
fn aligned_rect_spans() {
    // A 10 by 6 texture centered at (100, 50) reaches half its size out.
    let c = aligned_rect(HPos::Center(100), VPos::Center(50), 10, 6);
    assert_eq!(c, Rect { x: 95, y: 47, w: 10, h: 6 });

    let r = aligned_rect(HPos::Right(20), VPos::Top(5), 8, 4);
    assert_eq!(r, Rect { x: 12, y: 5, w: 8, h: 4 });

    // Stretch ignores the texture's natural size.
    let s = aligned_rect(HPos::Stretch(3, 7), VPos::Bottom(9), 100, 2);
    assert_eq!(s, Rect { x: 3, y: 7, w: 7, h: 2 });
}

#[test]
fn tile_src_strip() {
    // Tiles sit in one horizontal strip in the tileset image.
    assert_eq!(tile_src_rect(3, 16, 24), Rect { x: 48, y: 0, w: 16, h: 24 });
    assert_eq!(tile_src_rect(0, 16, 24), Rect { x: 0, y: 0, w: 16, h: 24 });
}

#[test]
fn text_cache_ids_name_font_and_content() {
    assert_eq!(text_cache_id("assets/orangekid", "$0.00"), ":STR:assets/orangekid:$0.00");
    assert_eq!(text_cache_id("f", ""), ":STR:f:");
}

#[test]
fn rectangle_constructors() {
    let rect = Rect { x: 1, y: 2, w: 3, h: 4 };
    let color = Color { r: 9, g: 8, b: 7, a: 6 };
    let f = Rectangle::filled(rect, color);
    assert!(f.filled);
    assert_eq!(f.rect, rect);
    assert_eq!(f.color, color);
    let u = Rectangle::_unfilled(rect, color);
    assert!(!u.filled);
}
