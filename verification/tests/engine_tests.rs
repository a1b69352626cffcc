use tarnished::brobot::{Direction, Impulse, Key, KeyEvent};
use tarnished::reactive::{
    Engine, FilterMapFn, FoldFn, Lift2Fn, MapFn, PredFn, SnapFn, Value,
};

fn imp(left: bool, up: bool, right: bool, down: bool) -> Impulse {
    Impulse { left, up, right, down }
}

fn nirvana() -> Impulse {
    imp(false, false, false, false)
}

#[test]
fn map_projects_key_codes() {
    let mut e = Engine::new();
    let src = e.add_source();
    let mapped = e.add_map(MapFn::EventKey, src);
    let held = e.add_hold(Value::Code(Key::Down), mapped);
    e.send(src, Value::Key(KeyEvent::KeyUp(Key::Left)));
    assert_eq!(e.sample(held), Value::Code(Key::Left));
}

#[test]
fn filter_keeps_only_matching_occurrences() {
    let mut e = Engine::new();
    let src = e.add_source();
    let downs = e.add_filter(PredFn::IsKeyDown, src);
    let held = e.add_hold(Value::Flag(false), downs);
    e.send(src, Value::Key(KeyEvent::KeyUp(Key::Left)));
    assert_eq!(e.sample(held), Value::Flag(false));
    e.send(src, Value::Key(KeyEvent::KeyDown(Key::Up)));
    assert_eq!(e.sample(held), Value::Key(KeyEvent::KeyDown(Key::Up)));
}

#[test]
fn filter_map_projects_down_keys() {
    let mut e = Engine::new();
    let src = e.add_source();
    let downs = e.add_filter_map(FilterMapFn::DownKey, src);
    let held = e.add_hold(Value::Code(Key::Down), downs);
    e.send(src, Value::Key(KeyEvent::KeyUp(Key::Right)));
    assert_eq!(e.sample(held), Value::Code(Key::Down));
    e.send(src, Value::Key(KeyEvent::KeyDown(Key::Right)));
    assert_eq!(e.sample(held), Value::Code(Key::Right));
}

#[test]
fn fold_toggle_flips_on_every_occurrence() {
    let mut e = Engine::new();
    let src = e.add_source();
    let toggle = e.add_fold(FoldFn::Toggle, Value::Flag(false), src);
    e.send(src, Value::Flag(false));
    assert_eq!(e.sample(toggle), Value::Flag(true));
    e.send(src, Value::Flag(false));
    assert_eq!(e.sample(toggle), Value::Flag(false));
}

#[test]
fn constant_signals_never_change() {
    let mut e = Engine::new();
    let src = e.add_source();
    let c = e.add_constant(Value::Micros(7));
    assert_eq!(e.sample(c), Value::Micros(7));
    e.send(src, Value::Micros(1));
    assert_eq!(e.sample(c), Value::Micros(7));
}

#[test]
fn stream_with_no_dependents_is_legal() {
    let mut e = Engine::new();
    let src = e.add_source();
    e.send(src, Value::Flag(true));
    assert_eq!(e.len(), 1);
}

#[test]
fn snapshot_reads_pre_transaction_state() {
    // A fold and a snapshot hang off the same source: the snapshot must see
    // the fold's cell as it stood before this transaction's own update.
    let mut e = Engine::new();
    let src = e.add_source();
    let impulse = e.add_fold(FoldFn::Samsara, Value::Imp(nirvana()), src);
    let capture = e.add_snapshot(SnapFn::First, impulse, src);
    let prior = e.add_hold(Value::Imp(nirvana()), capture);

    e.send(src, Value::Key(KeyEvent::KeyDown(Key::Left)));
    assert_eq!(e.sample(impulse), Value::Imp(imp(true, false, false, false)));
    assert_eq!(e.sample(prior), Value::Imp(nirvana()));

    e.send(src, Value::Key(KeyEvent::KeyDown(Key::Up)));
    assert_eq!(e.sample(impulse), Value::Imp(imp(true, true, false, false)));
    assert_eq!(e.sample(prior), Value::Imp(imp(true, false, false, false)));
}

#[test]
fn lift_recomputes_from_current_inputs() {
    let mut e = Engine::new();
    let src = e.add_source();
    let impulse = e.add_fold(FoldFn::Samsara, Value::Imp(nirvana()), src);
    let prior = e.add_constant(Value::Imp(imp(false, false, true, false)));
    let dir = e.add_lift2(Lift2Fn::Decide, prior, impulse);

    // At rest the current impulse desires nothing, so the prior one wins.
    assert_eq!(e.sample(dir), Value::Dir(Direction::Right));
    e.send(src, Value::Key(KeyEvent::KeyDown(Key::Down)));
    assert_eq!(e.sample(dir), Value::Dir(Direction::Down));
}
