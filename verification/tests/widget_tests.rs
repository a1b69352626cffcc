use tarnished::renderer::{Color, HPos, Rect, VPos};
use tarnished::textbox::Textbox;
use tarnished::tilepicker::TilePicker;

#[test]
fn textbox_renders_nine_patch_border() {
    let tb = Textbox::new("assets/box", Rect { x: 12, y: 12, w: 32, h: 16 });
    let parts = tb.render();
    assert_eq!(parts.len(), 8);

    assert_eq!(parts[0].name, "assets/box/tl");
    assert_eq!(parts[0].hpos, HPos::Right(12));
    assert_eq!(parts[0].vpos, VPos::Bottom(12));

    assert_eq!(parts[1].name, "assets/box/t");
    assert_eq!(parts[1].hpos, HPos::Stretch(12, 32));

    assert_eq!(parts[2].name, "assets/box/tr");
    assert_eq!(parts[2].hpos, HPos::Left(44));

    assert_eq!(parts[3].name, "assets/box/l");
    assert_eq!(parts[3].vpos, VPos::Stretch(12, 16));

    assert_eq!(parts[4].name, "assets/box/r");
    assert_eq!(parts[4].hpos, HPos::Left(44));

    assert_eq!(parts[5].name, "assets/box/bl");
    assert_eq!(parts[5].vpos, VPos::Top(28));

    assert_eq!(parts[6].name, "assets/box/b");
    assert_eq!(parts[6].hpos, HPos::Stretch(12, 32));

    assert_eq!(parts[7].name, "assets/box/br");
    assert_eq!(parts[7].hpos, HPos::Left(44));
    assert_eq!(parts[7].vpos, VPos::Top(28));
}

#[test]
fn tilepicker_selects_by_click() {
    let mut tp = TilePicker::new("assets/cotp", 16, 16, 0, 0, 960, 66);
    assert_eq!(tp.selected(), 0);
    // Each displayed cell is 16 * 4 + 1 = 65 pixels wide.
    assert!(tp.click((70, 10)));
    assert_eq!(tp.selected(), 1);
    // A miss changes nothing.
    assert!(!tp.click((-5, 10)));
    assert_eq!(tp.selected(), 1);
}

#[test]
fn tilepicker_scrolls_but_not_past_start() {
    let mut tp = TilePicker::new("assets/cotp", 16, 16, 0, 0, 960, 66);
    tp.scroll(2);
    assert!(tp.click((0, 0)));
    assert_eq!(tp.selected(), 2);
    // Scrolling past the start of the strip is ignored.
    tp.scroll(-5);
    assert!(tp.click((0, 0)));
    assert_eq!(tp.selected(), 2);
    tp.scroll(-2);
    assert!(tp.click((0, 0)));
    assert_eq!(tp.selected(), 0);
}

#[test]
fn tilepicker_renders_strip_with_highlight() {
    let mut tp = TilePicker::new("cotp", 16, 16, 0, 0, 130, 66);
    // Cells are drawn 64 pixels wide, so two tiles fit in 130 pixels.
    let (rects, tiles) = tp.render();
    assert_eq!(tiles.len(), 2);

    assert_eq!(rects.len(), 2);
    assert_eq!(rects[0].rect, Rect { x: 0, y: 0, w: 130, h: 66 });
    assert_eq!(rects[0].color, Color { r: 32, g: 32, b: 32, a: 255 });
    assert!(rects[0].filled);

    assert_eq!(tiles[0].asset, "cotp");
    assert_eq!(tiles[0].src, Some(Rect { x: 0, y: 0, w: 16, h: 16 }));
    assert_eq!(tiles[0].dst, Rect { x: 0, y: 1, w: 64, h: 64 });
    assert_eq!(tiles[1].src, Some(Rect { x: 16, y: 0, w: 16, h: 16 }));
    assert_eq!(tiles[1].dst, Rect { x: 65, y: 1, w: 64, h: 64 });

    // The selected tile is highlighted, one padding pixel around it.
    assert_eq!(rects[1].rect, Rect { x: -1, y: 0, w: 66, h: 66 });
    assert_eq!(rects[1].color, Color { r: 255, g: 0, b: 0, a: 255 });

    // Scroll the selection off screen: the highlight disappears.
    tp.scroll(5);
    let (rects2, tiles2) = tp.render();
    assert_eq!(rects2.len(), 1);
    assert_eq!(tiles2[0].src, Some(Rect { x: 80, y: 0, w: 16, h: 16 }));
}
