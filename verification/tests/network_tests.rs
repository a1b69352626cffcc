use tarnished::brobot::{
    controlled_sprite, decisiveness, replay, samsara, to_units, Direction, Impulse, InputError,
    Key, KeyEvent, Pushed,
};

fn imp(left: bool, up: bool, right: bool, down: bool) -> Impulse {
    Impulse { left, up, right, down }
}

#[test]
fn impulse_folds_bitwise() {
    let mut n = controlled_sprite("assets/porky", 16, 24, 0, 0, 120_000, 16_000);
    n.push_keyboard(KeyEvent::KeyDown(Key::Left));
    n.push_keyboard(KeyEvent::KeyDown(Key::Up));
    assert_eq!(n.sample_impulse(), imp(true, true, false, false));
    n.push_keyboard(KeyEvent::KeyUp(Key::Left));
    assert_eq!(n.sample_impulse(), imp(false, true, false, false));
}

#[test]
fn release_falls_back_to_prior_impulse() {
    let mut n = controlled_sprite("assets/porky", 16, 24, 0, 0, 120_000, 16_000);
    n.push_keyboard(KeyEvent::KeyDown(Key::Right));
    n.push_keyboard(KeyEvent::KeyUp(Key::Right));
    // The impulse is back to all-false, but the direction must resolve to
    // the prior impulse, not silently default to Down.
    assert_eq!(n.sample_impulse(), imp(false, false, false, false));
    assert_eq!(n.sample_direction(), Direction::Right);
}

#[test]
fn priority_down_beats_left() {
    let mut n = controlled_sprite("assets/porky", 16, 24, 0, 0, 120_000, 16_000);
    n.push_keyboard(KeyEvent::KeyDown(Key::Down));
    n.push_keyboard(KeyEvent::KeyDown(Key::Left));
    assert_eq!(n.sample_direction(), Direction::Down);

    // The fixed priority is Down, then Up, then Left, then Right.
    let rest = imp(false, false, false, false);
    assert_eq!(decisiveness(rest, imp(true, true, true, true)), Direction::Down);
    assert_eq!(decisiveness(rest, imp(true, true, true, false)), Direction::Up);
    assert_eq!(decisiveness(rest, imp(true, false, true, false)), Direction::Left);
    assert_eq!(decisiveness(rest, imp(false, false, true, false)), Direction::Right);
    assert_eq!(decisiveness(rest, rest), Direction::Down);
}

#[test]
fn integration_is_additive() {
    let mut a = controlled_sprite("assets/porky", 16, 24, 0, 0, 120_000, 16_000);
    let mut b = controlled_sprite("assets/porky", 16, 24, 0, 0, 120_000, 16_000);
    a.push_keyboard(KeyEvent::KeyDown(Key::Right));
    b.push_keyboard(KeyEvent::KeyDown(Key::Right));

    // One second split unevenly in two lands exactly where one push does.
    a.push_time_delta(300_000).unwrap();
    a.push_time_delta(700_000).unwrap();
    b.push_time_delta(1_000_000).unwrap();
    assert_eq!(a.sample_position(), b.sample_position());
    assert_eq!(a.sample_position(), (120 * 1_000_000_000, 0));
}

#[test]
fn replay_is_deterministic() {
    let events = vec![
        Pushed::Keyboard(KeyEvent::KeyDown(Key::Right)),
        Pushed::TimeDelta(250_000),
        Pushed::Keyboard(KeyEvent::KeyDown(Key::Up)),
        Pushed::TimeDelta(333_333),
        Pushed::Keyboard(KeyEvent::KeyUp(Key::Right)),
        Pushed::TimeDelta(100_000),
    ];
    let n1 = replay("assets/porky", 16, 24, 85, 100, 120_000, 16_000, &events);
    let n2 = replay("assets/porky", 16, 24, 85, 100, 120_000, 16_000, &events);
    assert_eq!(n1.sample_position(), n2.sample_position());
    assert_eq!(n1.sample_render(), n2.sample_render());
    assert_eq!(n1.sample_direction(), n2.sample_direction());
    assert_eq!(n1.sample_impulse(), n2.sample_impulse());
}

#[test]
fn read_stability() {
    let mut n = controlled_sprite("assets/porky", 16, 24, 85, 100, 120_000, 16_000);
    n.push_keyboard(KeyEvent::KeyDown(Key::Left));
    n.push_time_delta(123_456).unwrap();
    assert_eq!(n.sample_position(), n.sample_position());
    assert_eq!(n.sample_render(), n.sample_render());
    assert_eq!(n.sample_direction(), n.sample_direction());
    assert_eq!(n.sample_impulse(), n.sample_impulse());
}

#[test]
fn scenario_right_half_second() {
    // Hold Right for half a second at 42 units per second from (85, 100).
    let mut n = controlled_sprite("assets/porky", 16, 24, 85, 100, 42_000, 16_000);
    n.push_keyboard(KeyEvent::KeyDown(Key::Right));
    n.push_time_delta(500_000).unwrap();

    let (x, y) = n.sample_position();
    assert_eq!((x as f64 / 1e9) as f32, 106.0f32);
    assert_eq!((y as f64 / 1e9) as f32, 100.0f32);

    let f = n.sample_render();
    assert!(f.frame_index == 3 || f.frame_index == 7);
    for bad in [0u32, 1, 2, 4, 5, 6] {
        assert_ne!(f.frame_index, bad);
    }
    assert_eq!((f.x, f.y), (106, 100));
}

#[test]
fn negative_delta_is_rejected() {
    let mut n = controlled_sprite("assets/porky", 16, 24, 3, 4, 120_000, 16_000);
    assert_eq!(n.push_time_delta(-1), Err(InputError::NegativeDelta));
    assert_eq!(n.sample_position(), (3_000_000_000, 4_000_000_000));
}

#[test]
fn unrepresentable_delta_is_rejected() {
    // At rest a gigantic delta only advances the clock, which just fits.
    let mut n = controlled_sprite("assets/porky", 16, 24, 0, 0, 1_000, 16_000);
    assert_eq!(n.push_time_delta(i64::MAX), Ok(()));
    // One more microsecond would push the clock past the end of time.
    assert_eq!(n.push_time_delta(1), Err(InputError::OutOfRange));

    // While moving, the same gigantic delta would overflow the position.
    let mut m = controlled_sprite("assets/porky", 16, 24, 0, 0, 1_000, 16_000);
    m.push_keyboard(KeyEvent::KeyDown(Key::Right));
    assert_eq!(m.push_time_delta(i64::MAX), Err(InputError::OutOfRange));
    assert_eq!(m.sample_position(), (0, 0));
}

#[test]
fn tile_passes_asset_through() {
    let n = controlled_sprite("assets/porky", 16, 24, 85, 100, 42_000, 16_000);
    let t = n.sample_tile();
    assert_eq!(t.tileset, "assets/porky");
    assert_eq!(t.tile, 0);
    assert_eq!((t.width, t.height), (16, 24));
    assert_eq!((t.x, t.y), (85, 100));
}

#[test]
fn samsara_touches_only_its_key() {
    let all = imp(true, true, true, true);
    assert_eq!(samsara(all, KeyEvent::KeyUp(Key::Down)), imp(true, true, true, false));
    let none = imp(false, false, false, false);
    assert_eq!(samsara(none, KeyEvent::KeyDown(Key::Up)), imp(false, true, false, false));
}

#[test]
fn nano_units_truncate_toward_zero() {
    assert_eq!(to_units(1_999_999_999), 1);
    assert_eq!(to_units(-1_999_999_999), -1);
    assert_eq!(to_units(0), 0);
    // Far-out coordinates clamp to the screen-space range.
    assert_eq!(to_units(i64::MAX), i32::MAX);
    assert_eq!(to_units(i64::MIN), i32::MIN);
}

#[test]
fn walking_animation_flickers() {
    // At 16 steps per second the square wave turns over every 62.5 ms.
    let mut n = controlled_sprite("assets/porky", 16, 24, 0, 0, 1_000, 16_000);
    n.push_keyboard(KeyEvent::KeyDown(Key::Right));
    n.push_time_delta(62_500).unwrap();
    assert_eq!(n.sample_render().frame_index, 7);
    n.push_time_delta(62_500).unwrap();
    assert_eq!(n.sample_render().frame_index, 3);

    // At rest the base frame shows whatever the wave does.
    let mut m = controlled_sprite("assets/porky", 16, 24, 0, 0, 1_000, 16_000);
    m.push_time_delta(62_500).unwrap();
    assert_eq!(m.sample_render().frame_index, 0);
}

#[test]
fn diagonal_movement_is_unnormalized() {
    // Left and up held together move full speed on both axes.
    let mut n = controlled_sprite("assets/porky", 16, 24, 0, 0, 10_000, 16_000);
    n.push_keyboard(KeyEvent::KeyDown(Key::Left));
    n.push_keyboard(KeyEvent::KeyDown(Key::Up));
    n.push_time_delta(1_000_000).unwrap();
    assert_eq!(n.sample_position(), (-10_000_000_000, -10_000_000_000));

    // Opposed keys cancel exactly.
    n.push_keyboard(KeyEvent::KeyDown(Key::Right));
    n.push_time_delta(1_000_000).unwrap();
    assert_eq!(n.sample_position(), (-10_000_000_000, -20_000_000_000));
}
