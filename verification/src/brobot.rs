//! The control network for the player character: movement impulse folded
//! from keyboard events, a captured prior impulse ("whimsy") for the
//! direction tie-break, position integrated over time deltas, and the
//! derived animation frame.
//!
//! World coordinates are kept in integer fixed point: positions in
//! nano-units, movement speed in milli-units per second, and time in
//! microseconds, so that one second at speed 1000 moves exactly one
//! billion nano-units.

use vstd::prelude::*;
use vstd::string::StringExecFns;

use crate::reactive::{
    as_imp, as_micros, as_pair, ctx_apply_spec, cur_at, fold_apply_spec, occ_at, value_at,
    CtxFoldFn, Engine, FoldFn, Lift2Fn, Lift4Fn, NodeKind, SnapFn, Value,
};
use crate::scene::Tile;

verus! {

/// One of the four movement keys.
#[derive(Clone, Copy, Debug, PartialEq, Eq, Structural)]
pub enum Key {
    Up,
    Down,
    Left,
    Right,
}

/// A keyboard occurrence at the injection boundary: a movement key was
/// pressed or released.
#[derive(Clone, Copy, Debug, PartialEq, Eq, Structural)]
pub enum KeyEvent {
    KeyDown(Key),
    KeyUp(Key),
}

/// The facing direction of the sprite; there is always one, `Down` at rest.
#[derive(Clone, Copy, Debug, PartialEq, Eq, Structural)]
pub enum Direction {
    Down,
    Left,
    Up,
    Right,
}

/// A radically free struct that is capable of representing the desire to move
/// in every direction at once.
#[derive(Clone, Copy, Debug, PartialEq, Eq, Structural)]
pub struct Impulse {
    pub left: bool,
    pub up: bool,
    pub right: bool,
    pub down: bool,
}

impl Impulse {
    /// The Impulse that desires nothing.
    pub fn nirvana() -> (r: Impulse)
        ensures
            r == (Impulse { left: false, up: false, right: false, down: false }),
    {
        Impulse { left: false, up: false, right: false, down: false }
    }
}

/// The impulse with no bit set, as a spec value.
pub open spec fn nirvana_spec() -> Impulse {
    Impulse { left: false, up: false, right: false, down: false }
}

/// How one keyboard occurrence changes the current impulse: the bit for the
/// event's key is set or cleared, the other three are untouched.
pub open spec fn samsara_spec(impulse: Impulse, event: KeyEvent) -> Impulse {
    match event {
        KeyEvent::KeyDown(Key::Left) => Impulse { left: true, ..impulse },
        KeyEvent::KeyDown(Key::Up) => Impulse { up: true, ..impulse },
        KeyEvent::KeyDown(Key::Right) => Impulse { right: true, ..impulse },
        KeyEvent::KeyDown(Key::Down) => Impulse { down: true, ..impulse },
        KeyEvent::KeyUp(Key::Left) => Impulse { left: false, ..impulse },
        KeyEvent::KeyUp(Key::Up) => Impulse { up: false, ..impulse },
        KeyEvent::KeyUp(Key::Right) => Impulse { right: false, ..impulse },
        KeyEvent::KeyUp(Key::Down) => Impulse { down: false, ..impulse },
    }
}

/// The eternal cycle of changing desires based on keyboard events.
pub fn samsara(impulse: Impulse, event: KeyEvent) -> (r: Impulse)
    ensures
        r == samsara_spec(impulse, event),
{
    match event {
        KeyEvent::KeyDown(Key::Left) => Impulse { left: true, ..impulse },
        KeyEvent::KeyDown(Key::Up) => Impulse { up: true, ..impulse },
        KeyEvent::KeyDown(Key::Right) => Impulse { right: true, ..impulse },
        KeyEvent::KeyDown(Key::Down) => Impulse { down: true, ..impulse },
        KeyEvent::KeyUp(Key::Left) => Impulse { left: false, ..impulse },
        KeyEvent::KeyUp(Key::Up) => Impulse { up: false, ..impulse },
        KeyEvent::KeyUp(Key::Right) => Impulse { right: false, ..impulse },
        KeyEvent::KeyUp(Key::Down) => Impulse { down: false, ..impulse },
    }
}

/// One rendered animation frame: an index into the sprite sheet plus the
/// world coordinates (in whole units) at which the sprite is drawn.
#[derive(Clone, Copy, Debug, PartialEq, Eq, Structural)]
pub struct RenderFrame {
    pub frame_index: u32,
    pub x: i32,
    pub y: i32,
}

/// An `int` clamped into the `i64` range.
pub open spec fn clamp_i64(v: int) -> i64 {
    if v > i64::MAX {
        i64::MAX
    } else if v < i64::MIN {
        i64::MIN
    } else {
        v as i64
    }
}

/// Clamp a 128-bit intermediate into the `i64` range.
pub fn clamp_to_i64(v: i128) -> (r: i64)
    ensures
        r == clamp_i64(v as int),
{
    if v > i64::MAX as i128 {
        i64::MAX
    } else if v < i64::MIN as i128 {
        i64::MIN
    } else {
        v as i64
    }
}

/// The exact new x coordinate (in nano-units, unbounded) after integrating
/// one time delta: each held horizontal key moves the position by
/// `speed * dt` independently, so a held left-and-right pair cancels out.
pub open spec fn integrate_x_spec(x: i64, imp: Impulse, speed: u32, dt: i64) -> int {
    x - (if imp.left {
        speed * dt
    } else {
        0
    }) + (if imp.right {
        speed * dt
    } else {
        0
    })
}

/// The exact new y coordinate after one time delta; up decreases y, down
/// increases it, independently.
pub open spec fn integrate_y_spec(y: i64, imp: Impulse, speed: u32, dt: i64) -> int {
    y - (if imp.up {
        speed * dt
    } else {
        0
    }) + (if imp.down {
        speed * dt
    } else {
        0
    })
}

proof fn lemma_mul_range(a: int, b: int, am: int, bm: int)
    by (nonlinear_arith)
    requires
        0 <= a <= am,
        -bm <= b <= bm,
        0 <= bm,
    ensures
        -(am * bm) <= a * b <= am * bm,
{
}

/// Move a position (in nano-units) by one time delta (in microseconds) at
/// the given speed (in milli-units per second), one axis at a time, each
/// axis clamped into the `i64` range.
pub fn integrate(pos: (i64, i64), dt: i64, imp: Impulse, speed: u32) -> (r: (i64, i64))
    ensures
        r.0 == clamp_i64(integrate_x_spec(pos.0, imp, speed, dt)),
        r.1 == clamp_i64(integrate_y_spec(pos.1, imp, speed, dt)),
{
    proof {
        lemma_mul_range(speed as int, dt as int, u32::MAX as int, i64::MAX as int + 1);
    }
    let sdt: i128 = (speed as i128) * (dt as i128);
    let mut x: i128 = pos.0 as i128;
    let mut y: i128 = pos.1 as i128;
    if imp.left {
        x = x - sdt;
    }
    if imp.right {
        x = x + sdt;
    }
    if imp.up {
        y = y - sdt;
    }
    if imp.down {
        y = y + sdt;
    }
    (clamp_to_i64(x), clamp_to_i64(y))
}

/// Whether the walking animation shows the alternate frame at this clock
/// reading: a square wave over the accumulated clock (in microseconds) with
/// the flicker rate in milli-steps per second, odd steps showing the
/// alternate frame. A clock that never ran shows the base frame.
pub open spec fn flicker_spec(clock: i64, rate: u32) -> bool {
    clock > 0 && ((clock * rate) / 1_000_000_000) % 2 == 1
}

/// Evaluate the animation square wave at one clock reading.
pub fn flicker(clock: i64, rate: u32) -> (r: bool)
    ensures
        r == flicker_spec(clock, rate),
{
    if clock <= 0 {
        false
    } else {
        proof {
            lemma_mul_range(clock as int, rate as int, i64::MAX as int, u32::MAX as int);
        }
        let steps: u128 = ((clock as u128) * (rate as u128)) / 1_000_000_000;
        steps % 2 == 1
    }
}

/// A nano-unit coordinate reduced to whole units, truncated toward zero and
/// clamped into the `i32` range.
pub open spec fn nano_to_unit(p: i64) -> i32 {
    let q = if p >= 0 {
        p / 1_000_000_000
    } else {
        -((-p) / 1_000_000_000)
    };
    if q > i32::MAX {
        i32::MAX
    } else if q < i32::MIN {
        i32::MIN
    } else {
        q as i32
    }
}

/// Reduce a nano-unit coordinate to whole units.
pub fn to_units(p: i64) -> (r: i32)
    ensures
        r == nano_to_unit(p),
{
    if p >= 0 {
        let q: u64 = (p as u64) / 1_000_000_000;
        if q > i32::MAX as u64 {
            i32::MAX
        } else {
            q as i32
        }
    } else {
        let m: u128 = (-(p as i128)) as u128;
        let q: u128 = m / 1_000_000_000;
        if q > (-(i32::MIN as i128)) as u128 {
            i32::MIN
        } else {
            (-(q as i128)) as i64 as i32
        }
    }
}

/// The sprite-sheet base frame for a facing direction.
pub open spec fn base_frame_spec(d: Direction) -> u32 {
    match d {
        Direction::Down => 0,
        Direction::Left => 1,
        Direction::Up => 2,
        Direction::Right => 3,
    }
}

/// The rendered frame at one instant: the base frame of the facing
/// direction, stepped up by four to its walking variant while some movement
/// key is held and the animation square wave is high, drawn at the position
/// in whole units.
pub open spec fn compose_frame_spec(
    clock: i64,
    imp: Impulse,
    dir: Direction,
    x: i64,
    y: i64,
    rate: u32,
) -> RenderFrame {
    let base = base_frame_spec(dir);
    RenderFrame {
        frame_index: if imp != nirvana_spec() && flicker_spec(clock, rate) {
            (base + 4) as u32
        } else {
            base
        },
        x: nano_to_unit(x),
        y: nano_to_unit(y),
    }
}

/// Compose the rendered frame from the sampled clock, impulse, direction
/// and position.
pub fn compose_frame(clock: i64, imp: Impulse, dir: Direction, x: i64, y: i64, rate: u32) -> (r:
    RenderFrame)
    ensures
        r == compose_frame_spec(clock, imp, dir, x, y, rate),
{
    let base: u32 = match dir {
        Direction::Down => 0,
        Direction::Left => 1,
        Direction::Up => 2,
        Direction::Right => 3,
    };
    let moving = !(imp == Impulse::nirvana());
    let frame = if moving && flicker(clock, rate) {
        base + 4
    } else {
        base
    };
    RenderFrame { frame_index: frame, x: to_units(x), y: to_units(y) }
}

/// Which direction an impulse resolves to. When several bits are set the
/// priority is fixed: Down, then Up, then Left, then Right. An impulse with
/// no bit set rests at Down.
pub open spec fn direction_of(i: Impulse) -> Direction {
    if i.down {
        Direction::Down
    } else if i.up {
        Direction::Up
    } else if i.left {
        Direction::Left
    } else {
        Direction::Right
    }
}

/// The facing direction computed from prior impulse `a` and current impulse
/// `b`: the current impulse decides unless it desires nothing, in which case
/// the prior one does; an all-quiet pair rests at Down.
pub open spec fn decisiveness_spec(a: Impulse, b: Impulse) -> Direction {
    let stronger = if b == nirvana_spec() { a } else { b };
    if stronger == nirvana_spec() {
        Direction::Down
    } else {
        direction_of(stronger)
    }
}

/// Resolve facing direction from the prior impulse `a` and the current
/// impulse `b`.
pub fn decisiveness(a: Impulse, b: Impulse) -> (r: Direction)
    ensures
        r == decisiveness_spec(a, b),
{
    let stronger = if b == Impulse::nirvana() { a } else { b };
    if stronger.down {
        Direction::Down
    } else if stronger.up {
        Direction::Up
    } else if stronger.left {
        Direction::Left
    } else if stronger.right {
        Direction::Right
    } else {
        Direction::Down
    }
}

/// Node id of the keyboard injection point, first in the schedule.
pub const KEYBOARD_NODE: usize = 0;

/// Node id of the time-delta injection point.
pub const TIME_NODE: usize = 1;

/// Node id of the accumulated clock signal.
pub const CLOCK_NODE: usize = 2;

/// Node id of the impulse fold.
pub const IMPULSE_NODE: usize = 3;

/// Node id of the prior-impulse capture stream.
pub const CAPTURE_NODE: usize = 4;

/// Node id of the latched prior impulse ("whimsy") signal.
pub const WHIMSY_NODE: usize = 5;

/// Node id of the facing-direction lift.
pub const DIRECTION_NODE: usize = 6;

/// Node id of the integrated position signal.
pub const POSITION_NODE: usize = 7;

/// Node id of the rendered-frame lift, last in the schedule.
pub const RENDER_NODE: usize = 8;

/// The schedule of the control network: two injection points (keyboard and
/// time deltas), the accumulated clock, the impulse fold, the prior-impulse
/// capture and latch, the direction lift, the position integral and the
/// rendered frame.
pub open spec fn network_kinds(speed_milli: u32, rate_milli: u32) -> Seq<NodeKind> {
    seq![
        NodeKind::Source,
        NodeKind::Source,
        NodeKind::Fold(FoldFn::SumMicros, TIME_NODE),
        NodeKind::Fold(FoldFn::Samsara, KEYBOARD_NODE),
        NodeKind::Snapshot(SnapFn::First, IMPULSE_NODE, KEYBOARD_NODE),
        NodeKind::Hold(CAPTURE_NODE),
        NodeKind::Lift2(Lift2Fn::Decide, WHIMSY_NODE, IMPULSE_NODE),
        NodeKind::FoldCtx(CtxFoldFn::Integrate { speed_milli }, TIME_NODE, IMPULSE_NODE),
        NodeKind::Lift4(
            Lift4Fn::Compose { rate_milli },
            CLOCK_NODE,
            IMPULSE_NODE,
            DIRECTION_NODE,
            POSITION_NODE,
        ),
    ]
}

/// Everything the network remembers between transactions: the held-key
/// impulse, the latched prior impulse, the accumulated clock in
/// microseconds, and the position in nano-units.
#[derive(Clone, Copy, Debug, PartialEq, Eq, Structural)]
pub struct ModelState {
    pub impulse: Impulse,
    pub whimsy: Impulse,
    pub clock: i64,
    pub x: i64,
    pub y: i64,
}

/// The state of a freshly built network: nothing desired, clock at zero,
/// position at the configured starting point.
pub open spec fn initial_model(x0: i32, y0: i32) -> ModelState {
    ModelState {
        impulse: nirvana_spec(),
        whimsy: nirvana_spec(),
        clock: 0,
        x: (x0 * 1_000_000_000) as i64,
        y: (y0 * 1_000_000_000) as i64,
    }
}

/// One keyboard transaction: the impulse folds the event in, and the
/// whimsy latches what the impulse was immediately before this occurrence's
/// own update. Clock and position are untouched.
pub open spec fn step_key(m: ModelState, e: KeyEvent) -> ModelState {
    ModelState { impulse: samsara_spec(m.impulse, e), whimsy: m.impulse, ..m }
}

/// Whether integrating a (nonnegative) time delta keeps the clock and both
/// coordinates inside the representable range.
pub open spec fn time_fits(m: ModelState, speed: u32, dt: i64) -> bool {
    &&& m.clock + dt <= i64::MAX
    &&& i64::MIN <= integrate_x_spec(m.x, m.impulse, speed, dt) <= i64::MAX
    &&& i64::MIN <= integrate_y_spec(m.y, m.impulse, speed, dt) <= i64::MAX
}

/// One time-delta transaction: the clock accumulates the delta and the
/// position integrates it under the current impulse. A negative delta, or
/// one whose result would leave the representable range, is rejected at the
/// boundary and changes nothing.
pub open spec fn step_time(m: ModelState, speed: u32, dt: i64) -> ModelState {
    if 0 <= dt && time_fits(m, speed, dt) {
        ModelState {
            clock: (m.clock + dt) as i64,
            x: integrate_x_spec(m.x, m.impulse, speed, dt) as i64,
            y: integrate_y_spec(m.y, m.impulse, speed, dt) as i64,
            ..m
        }
    } else {
        m
    }
}

/// The rendered frame derived from a model state: direction resolved from
/// whimsy and impulse, base frame from the direction, walking variant while
/// moving and the square wave is high, position in whole units.
pub open spec fn render_spec(m: ModelState, rate: u32) -> RenderFrame {
    compose_frame_spec(
        m.clock,
        m.impulse,
        decisiveness_spec(m.whimsy, m.impulse),
        m.x,
        m.y,
        rate,
    )
}

/// Why an injected time delta was rejected.
#[derive(Clone, Copy, Debug, PartialEq, Eq, Structural)]
pub enum InputError {
    /// The delta was negative; time does not run backwards here.
    NegativeDelta,
    /// Integrating the delta would push the clock or a coordinate outside
    /// the representable range.
    OutOfRange,
}

/// The control network: a reactive graph driven by keyboard and time-delta
/// injections, sampled for position and rendered frame, together with the
/// construction-time configuration (asset identifier, tile size, movement
/// speed in milli-units per second and flicker rate in milli-steps per
/// second).
pub struct Network {
    engine: Engine,
    asset: String,
    tile_w: u32,
    tile_h: u32,
    speed_milli: u32,
    rate_milli: u32,
}

impl Network {
    /// The opaque asset identifier handed through to rendered tiles.
    pub closed spec fn asset_id(self) -> Seq<char> {
        self.asset@
    }

    /// The configured tile width.
    pub closed spec fn tile_w(self) -> u32 {
        self.tile_w
    }

    /// The configured tile height.
    pub closed spec fn tile_h(self) -> u32 {
        self.tile_h
    }

    /// The configured movement speed in milli-units per second.
    pub closed spec fn speed(self) -> u32 {
        self.speed_milli
    }

    /// The configured flicker rate in milli-steps per second.
    pub closed spec fn rate(self) -> u32 {
        self.rate_milli
    }

    /// The graph has exactly the wired shape and each cell holds a value of
    /// its node's kind, with the clock never negative.
    pub closed spec fn wf(self) -> bool {
        &&& self.engine.wf()
        &&& self.engine.kinds() =~= network_kinds(self.speed_milli, self.rate_milli)
        &&& (self.engine.cells()[CLOCK_NODE as int] matches Value::Micros(c) && c >= 0)
        &&& self.engine.cells()[IMPULSE_NODE as int] matches Value::Imp(_)
        &&& self.engine.cells()[WHIMSY_NODE as int] matches Value::Imp(_)
        &&& self.engine.cells()[POSITION_NODE as int] matches Value::Pair(_, _)
    }

    /// The model state the network currently holds.
    pub closed spec fn model(self) -> ModelState {
        ModelState {
            impulse: as_imp(self.engine.cells()[IMPULSE_NODE as int]),
            whimsy: as_imp(self.engine.cells()[WHIMSY_NODE as int]),
            clock: as_micros(self.engine.cells()[CLOCK_NODE as int]),
            x: as_pair(self.engine.cells()[POSITION_NODE as int]).0,
            y: as_pair(self.engine.cells()[POSITION_NODE as int]).1,
        }
    }

    /// Drive one keyboard transaction: the impulse folds the event in and
    /// the whimsy captures the impulse as it stood immediately before.
    pub fn push_keyboard(&mut self, e: KeyEvent)
        requires
            old(self).wf(),
        ensures
            final(self).wf(),
            final(self).model() == step_key(old(self).model(), e),
            final(self).asset_id() == old(self).asset_id(),
            final(self).tile_w() == old(self).tile_w(),
            final(self).tile_h() == old(self).tile_h(),
            final(self).speed() == old(self).speed(),
            final(self).rate() == old(self).rate(),
    {
        let ghost ks = self.engine.kinds();
        let ghost prior = self.engine.cells();
        let ghost inp = Value::Key(e);
        self.engine.send(KEYBOARD_NODE, Value::Key(e));
        proof {
            let src = KEYBOARD_NODE as int;
            assert(occ_at(ks, prior, src, inp, 0) == Some(inp));
            assert(occ_at(ks, prior, src, inp, 1) == None::<Value>);
            assert(value_at(ks, prior, 3) == prior[3]);
            assert(occ_at(ks, prior, src, inp, 4) == Some(prior[3]));
            assert(cur_at(ks, prior, src, inp, 2) == prior[2]);
            assert(cur_at(ks, prior, src, inp, 3) == fold_apply_spec(
                FoldFn::Samsara,
                prior[3],
                inp,
            ));
            assert(cur_at(ks, prior, src, inp, 5) == prior[3]);
            assert(cur_at(ks, prior, src, inp, 7) == prior[7]);
        }
    }

    /// Drive one time-delta transaction, the delta in microseconds: the
    /// clock accumulates it and the position integrates it under the
    /// current impulse. A negative delta is rejected, as is one whose
    /// result would not be representable; a rejected delta changes nothing.
    pub fn push_time_delta(&mut self, dt_micros: i64) -> (r: Result<(), InputError>)
        requires
            old(self).wf(),
        ensures
            final(self).wf(),
            final(self).model() == step_time(old(self).model(), old(self).speed(), dt_micros),
            final(self).asset_id() == old(self).asset_id(),
            final(self).tile_w() == old(self).tile_w(),
            final(self).tile_h() == old(self).tile_h(),
            final(self).speed() == old(self).speed(),
            final(self).rate() == old(self).rate(),
            (r matches Ok(_)) <==> (0 <= dt_micros && time_fits(
                old(self).model(),
                old(self).speed(),
                dt_micros,
            )),
            (r == Err::<(), InputError>(InputError::NegativeDelta)) <==> dt_micros < 0,
            (r == Err::<(), InputError>(InputError::OutOfRange)) <==> (0 <= dt_micros
                && !time_fits(old(self).model(), old(self).speed(), dt_micros)),
    {
        if dt_micros < 0 {
            return Err(InputError::NegativeDelta);
        }
        let clock_v = self.engine.sample(CLOCK_NODE);
        let pos_v = self.engine.sample(POSITION_NODE);
        let imp_v = self.engine.sample(IMPULSE_NODE);
        let clock = match clock_v {
            Value::Micros(c) => c,
            _ => {
                proof {
                    assert(false);
                }
                0
            },
        };
        let (px, py) = match pos_v {
            Value::Pair(a, b) => (a, b),
            _ => {
                proof {
                    assert(false);
                }
                (0, 0)
            },
        };
        let imp = match imp_v {
            Value::Imp(i) => i,
            _ => {
                proof {
                    assert(false);
                }
                Impulse::nirvana()
            },
        };
        proof {
            lemma_mul_range(
                self.speed_milli as int,
                dt_micros as int,
                u32::MAX as int,
                i64::MAX as int + 1,
            );
        }
        let sdt: i128 = (self.speed_milli as i128) * (dt_micros as i128);
        let mut nx: i128 = px as i128;
        let mut ny: i128 = py as i128;
        if imp.left {
            nx = nx - sdt;
        }
        if imp.right {
            nx = nx + sdt;
        }
        if imp.up {
            ny = ny - sdt;
        }
        if imp.down {
            ny = ny + sdt;
        }
        let nclock: i128 = (clock as i128) + (dt_micros as i128);
        if nclock > i64::MAX as i128 || nx > i64::MAX as i128 || nx < i64::MIN as i128 || ny
            > i64::MAX as i128 || ny < i64::MIN as i128 {
            return Err(InputError::OutOfRange);
        }
        let ghost ks = self.engine.kinds();
        let ghost prior = self.engine.cells();
        let ghost inp = Value::Micros(dt_micros);
        let ghost speed = self.speed_milli;
        self.engine.send(TIME_NODE, Value::Micros(dt_micros));
        proof {
            let src = TIME_NODE as int;
            assert(occ_at(ks, prior, src, inp, 0) == None::<Value>);
            assert(occ_at(ks, prior, src, inp, 1) == Some(inp));
            assert(occ_at(ks, prior, src, inp, 4) == None::<Value>);
            assert(cur_at(ks, prior, src, inp, 3) == prior[3]);
            assert(cur_at(ks, prior, src, inp, 5) == prior[5]);
            assert(cur_at(ks, prior, src, inp, 2) == fold_apply_spec(
                FoldFn::SumMicros,
                prior[2],
                inp,
            ));
            assert(cur_at(ks, prior, src, inp, 7) == ctx_apply_spec(
                CtxFoldFn::Integrate { speed_milli: speed },
                prior[7],
                inp,
                prior[3],
            ));
        }
        Ok(())
    }

    /// Sample the current position in nano-units. Pure: repeated reads with
    /// no intervening push return identical results.
    pub fn sample_position(&self) -> (r: (i64, i64))
        requires
            self.wf(),
        ensures
            r.0 == self.model().x,
            r.1 == self.model().y,
    {
        let v = self.engine.sample(POSITION_NODE);
        match v {
            Value::Pair(x, y) => (x, y),
            _ => {
                proof {
                    assert(false);
                }
                (0, 0)
            },
        }
    }

    /// Sample the held-key impulse. Pure: repeated reads with no
    /// intervening push return identical results.
    pub fn sample_impulse(&self) -> (r: Impulse)
        requires
            self.wf(),
        ensures
            r == self.model().impulse,
    {
        let v = self.engine.sample(IMPULSE_NODE);
        match v {
            Value::Imp(i) => i,
            _ => {
                proof {
                    assert(false);
                }
                Impulse::nirvana()
            },
        }
    }

    /// Sample the facing direction. Pure: repeated reads with no
    /// intervening push return identical results.
    pub fn sample_direction(&self) -> (r: Direction)
        requires
            self.wf(),
        ensures
            r == decisiveness_spec(self.model().whimsy, self.model().impulse),
    {
        let ghost ks = self.engine.kinds();
        let ghost cells = self.engine.cells();
        proof {
            assert(value_at(ks, cells, 5) == cells[5]);
            assert(value_at(ks, cells, 3) == cells[3]);
        }
        let v = self.engine.sample(DIRECTION_NODE);
        match v {
            Value::Dir(d) => d,
            _ => {
                proof {
                    assert(false);
                }
                Direction::Down
            },
        }
    }

    /// Sample the rendered frame descriptor. Pure: repeated reads with no
    /// intervening push return identical results.
    pub fn sample_render(&self) -> (r: RenderFrame)
        requires
            self.wf(),
        ensures
            r == render_spec(self.model(), self.rate()),
    {
        let ghost ks = self.engine.kinds();
        let ghost cells = self.engine.cells();
        proof {
            assert(value_at(ks, cells, 2) == cells[2]);
            assert(value_at(ks, cells, 3) == cells[3]);
            assert(value_at(ks, cells, 5) == cells[5]);
            assert(value_at(ks, cells, 7) == cells[7]);
            assert(value_at(ks, cells, 6) == crate::reactive::lift2_apply_spec(
                Lift2Fn::Decide,
                cells[5],
                cells[3],
            ));
        }
        let v = self.engine.sample(RENDER_NODE);
        match v {
            Value::Frame(f) => f,
            _ => {
                proof {
                    assert(false);
                }
                RenderFrame { frame_index: 0, x: 0, y: 0 }
            },
        }
    }

    /// Sample the rendered frame as a drawable tile of the configured asset
    /// and tile size, the asset identifier handed through unchanged.
    pub fn sample_tile(&self) -> (t: Tile)
        requires
            self.wf(),
        ensures
            t.tileset@ == self.asset_id(),
            t.tile == render_spec(self.model(), self.rate()).frame_index,
            t.width == self.tile_w(),
            t.height == self.tile_h(),
            t.x == render_spec(self.model(), self.rate()).x,
            t.y == render_spec(self.model(), self.rate()).y,
    {
        let f = self.sample_render();
        Tile::new(self.asset.as_str(), f.frame_index, self.tile_w, self.tile_h, f.x, f.y)
    }
}

/// Create a visible sprite that moves according to player input: a network
/// from the asset identifier, the tile size, the starting position in whole
/// units, the movement speed in milli-units per second and the animation
/// flicker rate in milli-steps per second.
pub fn controlled_sprite(
    asset: &str,
    w: u32,
    h: u32,
    x: i32,
    y: i32,
    speed_milli: u32,
    rate_milli: u32,
) -> (n: Network)
    ensures
        n.wf(),
        n.model() == initial_model(x, y),
        n.asset_id() == asset@,
        n.tile_w() == w,
        n.tile_h() == h,
        n.speed() == speed_milli,
        n.rate() == rate_milli,
{
    let mut e = Engine::new();
    // First, the two injection points driving the whole system.
    let keyboard = e.add_source();
    let time_delta = e.add_source();
    // The current time comes out of accumulated deltas.
    let clock = e.add_fold(FoldFn::SumMicros, Value::Micros(0), time_delta);
    // Transform keyboard events into a time-varying impulse signal.
    let impulse = e.add_fold(FoldFn::Samsara, Value::Imp(Impulse::nirvana()), keyboard);
    // In addition to where we want to move, we must compute our facing
    // direction. This is a function not just of current impulse, but also
    // of previous impulse when impulse is zero: at each keyboard occurrence
    // capture what the impulse was immediately before that occurrence's own
    // fold update, and latch it. We call this quantity "whimsy".
    let capture = e.add_snapshot(SnapFn::First, impulse, keyboard);
    let whimsy = e.add_hold(Value::Imp(Impulse::nirvana()), capture);
    // Facing direction is an introspective function over whimsy and impulse.
    let direction = e.add_lift2(Lift2Fn::Decide, whimsy, impulse);
    // Actual position folds impulse over time, sampling the impulse signal
    // as of each time-delta transaction.
    let x0: i64 = (x as i64) * 1_000_000_000;
    let y0: i64 = (y as i64) * 1_000_000_000;
    let position = e.add_fold_ctx(
        CtxFoldFn::Integrate { speed_milli },
        Value::Pair(x0, y0),
        time_delta,
        impulse,
    );
    // Finally, presentation in terms of time, impulse, direction, position.
    let render = e.add_lift4(Lift4Fn::Compose { rate_milli }, clock, impulse, direction, position);
    proof {
        assert(e.kinds() =~= network_kinds(speed_milli, rate_milli));
    }
    Network {
        engine: e,
        asset: String::from_str(asset),
        tile_w: w,
        tile_h: h,
        speed_milli,
        rate_milli,
    }
}

/// One externally injected occurrence, as recorded for a replay.
#[derive(Clone, Copy, Debug, PartialEq, Eq, Structural)]
pub enum Pushed {
    Keyboard(KeyEvent),
    TimeDelta(i64),
}

/// How one recorded occurrence advances the model.
pub open spec fn step_event(m: ModelState, speed: u32, ev: Pushed) -> ModelState {
    match ev {
        Pushed::Keyboard(e) => step_key(m, e),
        Pushed::TimeDelta(dt) => step_time(m, speed, dt),
    }
}

/// The model after pushing the occurrences of `evs` from index `i` on.
pub open spec fn replay_model(m: ModelState, speed: u32, evs: Seq<Pushed>, i: int) -> ModelState
    decreases evs.len() - i,
{
    if 0 <= i < evs.len() {
        replay_model(step_event(m, speed, evs[i]), speed, evs, i + 1)
    } else {
        m
    }
}

/// Replaying a fixed sequence of keyboard and time occurrences is
/// deterministic: the network ends in exactly the model-fold of the
/// sequence, so every value sampled after the replay is a function of the
/// pushed occurrences alone and identical across runs.
pub fn replay(
    asset: &str,
    w: u32,
    h: u32,
    x: i32,
    y: i32,
    speed_milli: u32,
    rate_milli: u32,
    events: &Vec<Pushed>,
) -> (n: Network)
    ensures
        n.wf(),
        n.model() == replay_model(initial_model(x, y), speed_milli, events@, 0),
        n.asset_id() == asset@,
        n.tile_w() == w,
        n.tile_h() == h,
        n.speed() == speed_milli,
        n.rate() == rate_milli,
{
    let mut n = controlled_sprite(asset, w, h, x, y, speed_milli, rate_milli);
    let ghost m0 = initial_model(x, y);
    let mut i: usize = 0;
    while i < events.len()
        invariant
            n.wf(),
            n.asset_id() == asset@,
            n.tile_w() == w,
            n.tile_h() == h,
            n.speed() == speed_milli,
            n.rate() == rate_milli,
            i <= events@.len(),
            replay_model(m0, speed_milli, events@, 0) == replay_model(
                n.model(),
                speed_milli,
                events@,
                i as int,
            ),
        decreases events@.len() - i,
    {
        let ev = events[i];
        match ev {
            Pushed::Keyboard(e) => n.push_keyboard(e),
            Pushed::TimeDelta(dt) => {
                let _ = n.push_time_delta(dt);
            },
        }
        i += 1;
    }
    n
}

proof fn lemma_mul_nonneg_mono(s: int, a: int, b: int)
    by (nonlinear_arith)
    requires
        0 <= s,
        0 <= a <= b,
    ensures
        0 <= s * a <= s * b,
        s * b == s * a + s * (b - a),
{
}

/// Integration is additive in the time delta: while the impulse does not
/// change between them, pushing `dt1` and then `dt2` moves the clock and
/// the position exactly as far as pushing `dt1 + dt2` once. Splitting a
/// delta in half and pushing it twice lands on the same state.
pub proof fn lemma_integration_additive(m: ModelState, speed: u32, dt1: i64, dt2: i64)
    requires
        0 <= dt1,
        0 <= dt2,
        dt1 + dt2 <= i64::MAX,
        time_fits(m, speed, (dt1 + dt2) as i64),
    ensures
        step_time(step_time(m, speed, dt1), speed, dt2) == step_time(m, speed, (dt1 + dt2) as i64),
{
    let s = speed as int;
    lemma_mul_nonneg_mono(s, dt1 as int, dt1 + dt2);
    lemma_mul_nonneg_mono(s, dt2 as int, dt1 + dt2);
    assert(s * ((dt1 + dt2) as i64) == s * (dt1 + dt2));
}

} // verus!
