//! A minimal push-based reactive runtime.
//!
//! The dataflow graph is an arena of nodes indexed by integer id. A node is
//! either an event stream (it carries discrete occurrences during a
//! transaction and stores nothing) or a signal (it has a value at every
//! instant: a private cell for `fold`/`hold`/constants, or a pure
//! recomputation for lifts). Ids grow monotonically and every node only
//! refers to nodes with smaller ids, so the id order is a topological
//! schedule and no cycle is expressible.
//!
//! One call to [`Engine::send`] is one transaction: the graph is walked once
//! in id order, every stream occurrence is derived from its input's
//! occurrence, and every cell is updated at most once. `snapshot` nodes read
//! their signal input from the frozen pre-transaction cells; a fold that
//! samples a context signal reads the value as of this transaction.
//! Between transactions [`Engine::sample`] reads signals without any side
//! effect.
//!
//! Combinator functions are not captured closures but variant-dispatched
//! pure functions, each tag carrying its parameters, so the whole graph is
//! plain data.

use vstd::prelude::*;

use crate::brobot::{
    clamp_i64, clamp_to_i64, compose_frame, compose_frame_spec, decisiveness, decisiveness_spec,
    integrate, integrate_x_spec, integrate_y_spec, nirvana_spec, samsara, samsara_spec, Direction,
    Impulse, Key, KeyEvent, RenderFrame,
};

verus! {

/// The closed universe of values carried by streams and signals.
#[derive(Clone, Copy, Debug, PartialEq, Eq, Structural)]
pub enum Value {
    /// A keyboard occurrence.
    Key(KeyEvent),
    /// A bare key code, as produced by projecting a keyboard occurrence.
    Code(Key),
    /// A movement impulse.
    Imp(Impulse),
    /// A facing direction.
    Dir(Direction),
    /// A time quantity in microseconds.
    Micros(i64),
    /// A coordinate pair in nano-units.
    Pair(i64, i64),
    /// A rendered frame descriptor.
    Frame(RenderFrame),
    /// A boolean toggle.
    Flag(bool),
}

/// The impulse held by a `Value`, when it holds one.
pub open spec fn as_imp(v: Value) -> Impulse {
    match v {
        Value::Imp(i) => i,
        _ => nirvana_spec(),
    }
}

/// The microsecond count held by a `Value`, when it holds one.
pub open spec fn as_micros(v: Value) -> i64 {
    match v {
        Value::Micros(c) => c,
        _ => 0,
    }
}

/// The coordinate pair held by a `Value`, when it holds one.
pub open spec fn as_pair(v: Value) -> (i64, i64) {
    match v {
        Value::Pair(x, y) => (x, y),
        _ => (0, 0),
    }
}

/// Pure functions usable with `map`.
#[derive(Clone, Copy, Debug, PartialEq, Eq, Structural)]
pub enum MapFn {
    /// Project a keyboard occurrence to the key it concerns.
    EventKey,
}

/// Predicates usable with `filter`.
#[derive(Clone, Copy, Debug, PartialEq, Eq, Structural)]
pub enum PredFn {
    /// Keep only key-down occurrences.
    IsKeyDown,
}

/// Partial functions usable with `filter_map`.
#[derive(Clone, Copy, Debug, PartialEq, Eq, Structural)]
pub enum FilterMapFn {
    /// The key of a key-down occurrence; nothing for a key-up.
    DownKey,
}

/// Accumulators usable with `fold`.
#[derive(Clone, Copy, Debug, PartialEq, Eq, Structural)]
pub enum FoldFn {
    /// Fold keyboard occurrences into the held-key impulse.
    Samsara,
    /// Sum time deltas into an accumulated clock, clamped at the ends of
    /// the `i64` range.
    SumMicros,
    /// Negate a boolean on every occurrence.
    Toggle,
}

/// Accumulators usable with a context-sampling `fold`.
#[derive(Clone, Copy, Debug, PartialEq, Eq, Structural)]
pub enum CtxFoldFn {
    /// Integrate a position over a time delta, at the given speed in
    /// milli-units per second, steered by a sampled impulse signal.
    Integrate { speed_milli: u32 },
}

/// Functions usable with `snapshot`.
#[derive(Clone, Copy, Debug, PartialEq, Eq, Structural)]
pub enum SnapFn {
    /// Keep the sampled signal value and discard the occurrence payload.
    First,
}

/// Pure functions usable with a binary `lift`.
#[derive(Clone, Copy, Debug, PartialEq, Eq, Structural)]
pub enum Lift2Fn {
    /// Resolve a facing direction from prior and current impulse.
    Decide,
}

/// Pure functions usable with a four-way `lift`.
#[derive(Clone, Copy, Debug, PartialEq, Eq, Structural)]
pub enum Lift4Fn {
    /// Compose the rendered frame from clock, impulse, direction and
    /// position, at the given flicker rate in milli-steps per second.
    Compose { rate_milli: u32 },
}

/// What a `map` function produces for one occurrence.
pub open spec fn map_apply_spec(f: MapFn, v: Value) -> Value {
    match f {
        MapFn::EventKey => match v {
            Value::Key(KeyEvent::KeyDown(k)) => Value::Code(k),
            Value::Key(KeyEvent::KeyUp(k)) => Value::Code(k),
            _ => v,
        },
    }
}

/// Apply a `map` function.
pub fn map_apply(f: MapFn, v: Value) -> (r: Value)
    ensures
        r == map_apply_spec(f, v),
{
    match f {
        MapFn::EventKey => match v {
            Value::Key(KeyEvent::KeyDown(k)) => Value::Code(k),
            Value::Key(KeyEvent::KeyUp(k)) => Value::Code(k),
            _ => v,
        },
    }
}

/// Whether a `filter` predicate lets an occurrence through.
pub open spec fn pred_apply_spec(p: PredFn, v: Value) -> bool {
    match p {
        PredFn::IsKeyDown => v matches Value::Key(KeyEvent::KeyDown(_)),
    }
}

/// Apply a `filter` predicate.
pub fn pred_apply(p: PredFn, v: Value) -> (r: bool)
    ensures
        r == pred_apply_spec(p, v),
{
    match p {
        PredFn::IsKeyDown => match v {
            Value::Key(KeyEvent::KeyDown(_)) => true,
            _ => false,
        },
    }
}

/// What a `filter_map` function produces for one occurrence, if anything.
pub open spec fn fm_apply_spec(f: FilterMapFn, v: Value) -> Option<Value> {
    match f {
        FilterMapFn::DownKey => match v {
            Value::Key(KeyEvent::KeyDown(k)) => Some(Value::Code(k)),
            _ => None,
        },
    }
}

/// Apply a `filter_map` function.
pub fn fm_apply(f: FilterMapFn, v: Value) -> (r: Option<Value>)
    ensures
        r == fm_apply_spec(f, v),
{
    match f {
        FilterMapFn::DownKey => match v {
            Value::Key(KeyEvent::KeyDown(k)) => Some(Value::Code(k)),
            _ => None,
        },
    }
}

/// The new cell of a `fold` after one occurrence. A payload of an
/// unexpected shape leaves the cell as it stands.
pub open spec fn fold_apply_spec(f: FoldFn, acc: Value, v: Value) -> Value {
    match f {
        FoldFn::Samsara => match (acc, v) {
            (Value::Imp(i), Value::Key(e)) => Value::Imp(samsara_spec(i, e)),
            _ => acc,
        },
        FoldFn::SumMicros => match (acc, v) {
            (Value::Micros(a), Value::Micros(b)) => Value::Micros(clamp_i64(a + b)),
            _ => acc,
        },
        FoldFn::Toggle => match acc {
            Value::Flag(b) => Value::Flag(!b),
            _ => acc,
        },
    }
}

/// Apply a `fold` accumulator.
pub fn fold_apply(f: FoldFn, acc: Value, v: Value) -> (r: Value)
    ensures
        r == fold_apply_spec(f, acc, v),
{
    match f {
        FoldFn::Samsara => match (acc, v) {
            (Value::Imp(i), Value::Key(e)) => Value::Imp(samsara(i, e)),
            _ => acc,
        },
        FoldFn::SumMicros => match (acc, v) {
            (Value::Micros(a), Value::Micros(b)) => Value::Micros(
                clamp_to_i64(a as i128 + b as i128),
            ),
            _ => acc,
        },
        FoldFn::Toggle => match acc {
            Value::Flag(b) => Value::Flag(!b),
            _ => acc,
        },
    }
}

/// The new cell of a context-sampling `fold` after one occurrence.
pub open spec fn ctx_apply_spec(f: CtxFoldFn, acc: Value, v: Value, ctx: Value) -> Value {
    match f {
        CtxFoldFn::Integrate { speed_milli } => match (acc, v, ctx) {
            (Value::Pair(x, y), Value::Micros(dt), Value::Imp(i)) => Value::Pair(
                clamp_i64(integrate_x_spec(x, i, speed_milli, dt)),
                clamp_i64(integrate_y_spec(y, i, speed_milli, dt)),
            ),
            _ => acc,
        },
    }
}

/// Apply a context-sampling `fold` accumulator.
pub fn ctx_apply(f: CtxFoldFn, acc: Value, v: Value, ctx: Value) -> (r: Value)
    ensures
        r == ctx_apply_spec(f, acc, v, ctx),
{
    match f {
        CtxFoldFn::Integrate { speed_milli } => match (acc, v, ctx) {
            (Value::Pair(x, y), Value::Micros(dt), Value::Imp(i)) => {
                let p = integrate((x, y), dt, i, speed_milli);
                Value::Pair(p.0, p.1)
            },
            _ => acc,
        },
    }
}

/// What a `snapshot` produces from the pre-transaction signal value and the
/// occurrence payload.
pub open spec fn snap_apply_spec(f: SnapFn, a: Value, b: Value) -> Value {
    match f {
        SnapFn::First => a,
    }
}

/// Apply a `snapshot` function.
pub fn snap_apply(f: SnapFn, a: Value, b: Value) -> (r: Value)
    ensures
        r == snap_apply_spec(f, a, b),
{
    match f {
        SnapFn::First => a,
    }
}

/// The value of a binary lift. Inputs of an unexpected shape resolve to the
/// resting direction.
pub open spec fn lift2_apply_spec(f: Lift2Fn, a: Value, b: Value) -> Value {
    match f {
        Lift2Fn::Decide => match (a, b) {
            (Value::Imp(w), Value::Imp(c)) => Value::Dir(decisiveness_spec(w, c)),
            _ => Value::Dir(Direction::Down),
        },
    }
}

/// Apply a binary lift function.
pub fn lift2_apply(f: Lift2Fn, a: Value, b: Value) -> (r: Value)
    ensures
        r == lift2_apply_spec(f, a, b),
{
    match f {
        Lift2Fn::Decide => match (a, b) {
            (Value::Imp(w), Value::Imp(c)) => Value::Dir(decisiveness(w, c)),
            _ => Value::Dir(Direction::Down),
        },
    }
}

/// The value of a four-way lift. Inputs of an unexpected shape yield the
/// zero frame at the origin.
pub open spec fn lift4_apply_spec(f: Lift4Fn, a: Value, b: Value, c: Value, d: Value) -> Value {
    match f {
        Lift4Fn::Compose { rate_milli } => match (a, b, c, d) {
            (Value::Micros(clock), Value::Imp(i), Value::Dir(dir), Value::Pair(x, y)) => Value::Frame(
                compose_frame_spec(clock, i, dir, x, y, rate_milli),
            ),
            _ => Value::Frame(RenderFrame { frame_index: 0, x: 0, y: 0 }),
        },
    }
}

/// Apply a four-way lift function.
pub fn lift4_apply(f: Lift4Fn, a: Value, b: Value, c: Value, d: Value) -> (r: Value)
    ensures
        r == lift4_apply_spec(f, a, b, c, d),
{
    match f {
        Lift4Fn::Compose { rate_milli } => match (a, b, c, d) {
            (Value::Micros(clock), Value::Imp(i), Value::Dir(dir), Value::Pair(x, y)) => Value::Frame(
                compose_frame(clock, i, dir, x, y, rate_milli),
            ),
            _ => Value::Frame(RenderFrame { frame_index: 0, x: 0, y: 0 }),
        },
    }
}

/// One node of the dataflow graph. Stream nodes carry occurrences during a
/// transaction; signal nodes have a value at every instant.
#[derive(Clone, Copy, Debug, PartialEq, Eq, Structural)]
pub enum NodeKind {
    /// An injection point: a stream whose occurrences come from outside.
    Source,
    /// A stream firing `f(v)` whenever its input stream fires `v`.
    Mapped(MapFn, usize),
    /// A stream forwarding an occurrence iff the predicate holds of it.
    Filtered(PredFn, usize),
    /// A stream firing `f(v)` whenever that result is present.
    FilterMapped(FilterMapFn, usize),
    /// A signal owning a cell folded over a stream's occurrences.
    Fold(FoldFn, usize),
    /// A `Fold` whose accumulator also samples a context signal, read as of
    /// the current transaction.
    FoldCtx(CtxFoldFn, usize, usize),
    /// A signal latching the most recent occurrence of a stream.
    Hold(usize),
    /// A stream pairing a signal's pre-transaction value with each
    /// occurrence of a stream: signal id first, then stream id.
    Snapshot(SnapFn, usize, usize),
    /// A signal with a fixed value.
    Constant,
    /// A signal recomputed from two input signals.
    Lift2(Lift2Fn, usize, usize),
    /// A signal recomputed from four input signals.
    Lift4(Lift4Fn, usize, usize, usize, usize),
}

/// Whether a node is an event stream.
pub open spec fn is_stream(k: NodeKind) -> bool {
    match k {
        NodeKind::Source => true,
        NodeKind::Mapped(_, _) => true,
        NodeKind::Filtered(_, _) => true,
        NodeKind::FilterMapped(_, _) => true,
        NodeKind::Snapshot(_, _, _) => true,
        _ => false,
    }
}

/// Whether a node is a signal.
pub open spec fn is_signal(k: NodeKind) -> bool {
    !is_stream(k)
}

/// Whether a node owns a storage cell.
pub open spec fn is_cell(k: NodeKind) -> bool {
    match k {
        NodeKind::Fold(_, _) => true,
        NodeKind::FoldCtx(_, _, _) => true,
        NodeKind::Hold(_) => true,
        NodeKind::Constant => true,
        _ => false,
    }
}

/// Every input of node `i` lies strictly before it in the schedule and has
/// the expected role (stream or signal).
pub open spec fn node_wf(kinds: Seq<NodeKind>, i: int) -> bool {
    match kinds[i] {
        NodeKind::Source => true,
        NodeKind::Mapped(_, s) => s < i && is_stream(kinds[s as int]),
        NodeKind::Filtered(_, s) => s < i && is_stream(kinds[s as int]),
        NodeKind::FilterMapped(_, s) => s < i && is_stream(kinds[s as int]),
        NodeKind::Fold(_, s) => s < i && is_stream(kinds[s as int]),
        NodeKind::FoldCtx(_, s, c) => s < i && is_stream(kinds[s as int]) && c < i && is_signal(
            kinds[c as int],
        ),
        NodeKind::Hold(s) => s < i && is_stream(kinds[s as int]),
        NodeKind::Snapshot(_, c, s) => c < i && is_signal(kinds[c as int]) && s < i && is_stream(
            kinds[s as int],
        ),
        NodeKind::Constant => true,
        NodeKind::Lift2(_, a, b) => a < i && is_signal(kinds[a as int]) && b < i && is_signal(
            kinds[b as int],
        ),
        NodeKind::Lift4(_, a, b, c, d) => a < i && is_signal(kinds[a as int]) && b < i && is_signal(
            kinds[b as int],
        ) && c < i && is_signal(kinds[c as int]) && d < i && is_signal(kinds[d as int]),
    }
}

/// The whole graph is well formed.
pub open spec fn graph_wf(kinds: Seq<NodeKind>) -> bool {
    forall|i: int| 0 <= i < kinds.len() ==> node_wf(kinds, i)
}

/// The sampled value of signal `i` under a given cell assignment: cells are
/// read directly, lifts are recomputed from their inputs.
pub open spec fn value_at(kinds: Seq<NodeKind>, cells: Seq<Value>, i: int) -> Value
    decreases i,
{
    if 0 <= i < kinds.len() {
        match kinds[i] {
            NodeKind::Fold(_, _) => cells[i],
            NodeKind::FoldCtx(_, _, _) => cells[i],
            NodeKind::Hold(_) => cells[i],
            NodeKind::Constant => cells[i],
            NodeKind::Lift2(f, a, b) => if a < i && b < i {
                lift2_apply_spec(f, value_at(kinds, cells, a as int), value_at(kinds, cells, b as int))
            } else {
                Value::Flag(false)
            },
            NodeKind::Lift4(f, a, b, c, d) => if a < i && b < i && c < i && d < i {
                lift4_apply_spec(
                    f,
                    value_at(kinds, cells, a as int),
                    value_at(kinds, cells, b as int),
                    value_at(kinds, cells, c as int),
                    value_at(kinds, cells, d as int),
                )
            } else {
                Value::Flag(false)
            },
            _ => Value::Flag(false),
        }
    } else {
        Value::Flag(false)
    }
}

/// The occurrence (if any) carried by stream `i` during the transaction in
/// which source `src` fires `input`, with `prior` the pre-transaction
/// cells. Signal nodes carry no occurrence.
pub open spec fn occ_at(
    kinds: Seq<NodeKind>,
    prior: Seq<Value>,
    src: int,
    input: Value,
    i: int,
) -> Option<Value>
    decreases i,
{
    if 0 <= i < kinds.len() {
        match kinds[i] {
            NodeKind::Source => if i == src {
                Some(input)
            } else {
                None
            },
            NodeKind::Mapped(f, s) => if s < i {
                match occ_at(kinds, prior, src, input, s as int) {
                    Some(v) => Some(map_apply_spec(f, v)),
                    None => None,
                }
            } else {
                None
            },
            NodeKind::Filtered(p, s) => if s < i {
                match occ_at(kinds, prior, src, input, s as int) {
                    Some(v) => if pred_apply_spec(p, v) {
                        Some(v)
                    } else {
                        None
                    },
                    None => None,
                }
            } else {
                None
            },
            NodeKind::FilterMapped(f, s) => if s < i {
                match occ_at(kinds, prior, src, input, s as int) {
                    Some(v) => fm_apply_spec(f, v),
                    None => None,
                }
            } else {
                None
            },
            NodeKind::Snapshot(f, c, s) => if s < i && c < i {
                match occ_at(kinds, prior, src, input, s as int) {
                    Some(b) => Some(snap_apply_spec(f, value_at(kinds, prior, c as int), b)),
                    None => None,
                }
            } else {
                None
            },
            _ => None,
        }
    } else {
        None
    }
}

/// The value of signal `i` as of the current transaction: cells already
/// updated by this transaction's occurrences, lifts recomputed over them.
pub open spec fn cur_at(
    kinds: Seq<NodeKind>,
    prior: Seq<Value>,
    src: int,
    input: Value,
    i: int,
) -> Value
    decreases i,
{
    if 0 <= i < kinds.len() {
        match kinds[i] {
            NodeKind::Fold(f, s) => if s < i {
                match occ_at(kinds, prior, src, input, s as int) {
                    Some(v) => fold_apply_spec(f, prior[i], v),
                    None => prior[i],
                }
            } else {
                prior[i]
            },
            NodeKind::FoldCtx(f, s, c) => if s < i && c < i {
                match occ_at(kinds, prior, src, input, s as int) {
                    Some(v) => ctx_apply_spec(
                        f,
                        prior[i],
                        v,
                        cur_at(kinds, prior, src, input, c as int),
                    ),
                    None => prior[i],
                }
            } else {
                prior[i]
            },
            NodeKind::Hold(s) => if s < i {
                match occ_at(kinds, prior, src, input, s as int) {
                    Some(v) => v,
                    None => prior[i],
                }
            } else {
                prior[i]
            },
            NodeKind::Constant => prior[i],
            NodeKind::Lift2(f, a, b) => if a < i && b < i {
                lift2_apply_spec(
                    f,
                    cur_at(kinds, prior, src, input, a as int),
                    cur_at(kinds, prior, src, input, b as int),
                )
            } else {
                Value::Flag(false)
            },
            NodeKind::Lift4(f, a, b, c, d) => if a < i && b < i && c < i && d < i {
                lift4_apply_spec(
                    f,
                    cur_at(kinds, prior, src, input, a as int),
                    cur_at(kinds, prior, src, input, b as int),
                    cur_at(kinds, prior, src, input, c as int),
                    cur_at(kinds, prior, src, input, d as int),
                )
            } else {
                Value::Flag(false)
            },
            _ => prior[i],
        }
    } else {
        Value::Flag(false)
    }
}

/// The committed cell of node `i` after the transaction: updated for cell
/// nodes, untouched for every other node.
pub open spec fn cell_after(
    kinds: Seq<NodeKind>,
    prior: Seq<Value>,
    src: int,
    input: Value,
    i: int,
) -> Value {
    if 0 <= i < kinds.len() && is_cell(kinds[i]) {
        cur_at(kinds, prior, src, input, i)
    } else {
        prior[i]
    }
}

/// Once every cell of the prefix up to `i` holds its committed value,
/// sampling signal `i` over those cells yields exactly the transaction's
/// value: committed fold and hold results are visible to later reads.
pub proof fn lemma_commit_visible(
    kinds: Seq<NodeKind>,
    prior: Seq<Value>,
    cells: Seq<Value>,
    src: int,
    input: Value,
    i: int,
)
    requires
        graph_wf(kinds),
        prior.len() == kinds.len(),
        cells.len() == kinds.len(),
        0 <= i < kinds.len(),
        is_signal(kinds[i]),
        forall|j: int|
            0 <= j <= i && is_cell(kinds[j]) ==> cells[j] == cell_after(
                kinds,
                prior,
                src,
                input,
                j,
            ),
    ensures
        value_at(kinds, cells, i) == cur_at(kinds, prior, src, input, i),
    decreases i,
{
    assert(node_wf(kinds, i));
    match kinds[i] {
        NodeKind::Lift2(f, a, b) => {
            lemma_commit_visible(kinds, prior, cells, src, input, a as int);
            lemma_commit_visible(kinds, prior, cells, src, input, b as int);
        },
        NodeKind::Lift4(f, a, b, c, d) => {
            lemma_commit_visible(kinds, prior, cells, src, input, a as int);
            lemma_commit_visible(kinds, prior, cells, src, input, b as int);
            lemma_commit_visible(kinds, prior, cells, src, input, c as int);
            lemma_commit_visible(kinds, prior, cells, src, input, d as int);
        },
        _ => {},
    }
}

/// Whether node `i` lies downstream of source `src`: whether an occurrence
/// fired there can reach it within one transaction. A cell is downstream
/// only through the stream it folds; a signal read by a snapshot or a
/// context fold does not put the reader downstream by itself.
pub open spec fn downstream(kinds: Seq<NodeKind>, src: int, i: int) -> bool
    decreases i,
{
    if 0 <= i < kinds.len() {
        match kinds[i] {
            NodeKind::Source => i == src,
            NodeKind::Mapped(_, s) => s < i && downstream(kinds, src, s as int),
            NodeKind::Filtered(_, s) => s < i && downstream(kinds, src, s as int),
            NodeKind::FilterMapped(_, s) => s < i && downstream(kinds, src, s as int),
            NodeKind::Fold(_, s) => s < i && downstream(kinds, src, s as int),
            NodeKind::FoldCtx(_, s, _) => s < i && downstream(kinds, src, s as int),
            NodeKind::Hold(s) => s < i && downstream(kinds, src, s as int),
            NodeKind::Snapshot(_, _, s) => s < i && downstream(kinds, src, s as int),
            NodeKind::Constant => false,
            NodeKind::Lift2(_, a, b) => (a < i && downstream(kinds, src, a as int)) || (b < i
                && downstream(kinds, src, b as int)),
            NodeKind::Lift4(_, a, b, c, d) => (a < i && downstream(kinds, src, a as int)) || (b < i
                && downstream(kinds, src, b as int)) || (c < i && downstream(kinds, src, c as int))
                || (d < i && downstream(kinds, src, d as int)),
        }
    } else {
        false
    }
}

/// A transaction only fans out from its firing injection point: a stream
/// that does not lie downstream of the source carries no occurrence, and a
/// signal that does not lie downstream reads exactly as it did before the
/// transaction.
pub proof fn lemma_transaction_locality(
    kinds: Seq<NodeKind>,
    prior: Seq<Value>,
    src: int,
    input: Value,
    i: int,
)
    requires
        graph_wf(kinds),
        prior.len() == kinds.len(),
        0 <= i < kinds.len(),
        !downstream(kinds, src, i),
    ensures
        occ_at(kinds, prior, src, input, i) is None,
        is_signal(kinds[i]) ==> cur_at(kinds, prior, src, input, i) == value_at(kinds, prior, i),
    decreases i,
{
    assert(node_wf(kinds, i));
    match kinds[i] {
        NodeKind::Mapped(_, s) => {
            lemma_transaction_locality(kinds, prior, src, input, s as int);
        },
        NodeKind::Filtered(_, s) => {
            lemma_transaction_locality(kinds, prior, src, input, s as int);
        },
        NodeKind::FilterMapped(_, s) => {
            lemma_transaction_locality(kinds, prior, src, input, s as int);
        },
        NodeKind::Fold(_, s) => {
            lemma_transaction_locality(kinds, prior, src, input, s as int);
        },
        NodeKind::FoldCtx(_, s, _) => {
            lemma_transaction_locality(kinds, prior, src, input, s as int);
        },
        NodeKind::Hold(s) => {
            lemma_transaction_locality(kinds, prior, src, input, s as int);
        },
        NodeKind::Snapshot(_, _, s) => {
            lemma_transaction_locality(kinds, prior, src, input, s as int);
        },
        NodeKind::Lift2(_, a, b) => {
            lemma_transaction_locality(kinds, prior, src, input, a as int);
            lemma_transaction_locality(kinds, prior, src, input, b as int);
        },
        NodeKind::Lift4(_, a, b, c, d) => {
            lemma_transaction_locality(kinds, prior, src, input, a as int);
            lemma_transaction_locality(kinds, prior, src, input, b as int);
            lemma_transaction_locality(kinds, prior, src, input, c as int);
            lemma_transaction_locality(kinds, prior, src, input, d as int);
        },
        _ => {},
    }
}

/// The reactive dataflow graph with its cells.
pub struct Engine {
    kinds: Vec<NodeKind>,
    cells: Vec<Value>,
}

/// Evaluate signal `i` over the given cell assignment.
fn eval_cells(kinds: &Vec<NodeKind>, cells: &Vec<Value>, i: usize) -> (r: Value)
    requires
        graph_wf(kinds@),
        cells@.len() == kinds@.len(),
        i < kinds@.len(),
        is_signal(kinds@[i as int]),
    ensures
        r == value_at(kinds@, cells@, i as int),
    decreases i,
{
    proof {
        assert(node_wf(kinds@, i as int));
    }
    let k = kinds[i];
    match k {
        NodeKind::Fold(_, _) => cells[i],
        NodeKind::FoldCtx(_, _, _) => cells[i],
        NodeKind::Hold(_) => cells[i],
        NodeKind::Constant => cells[i],
        NodeKind::Lift2(f, a, b) => {
            let va = eval_cells(kinds, cells, a);
            let vb = eval_cells(kinds, cells, b);
            lift2_apply(f, va, vb)
        },
        NodeKind::Lift4(f, a, b, c, d) => {
            let va = eval_cells(kinds, cells, a);
            let vb = eval_cells(kinds, cells, b);
            let vc = eval_cells(kinds, cells, c);
            let vd = eval_cells(kinds, cells, d);
            lift4_apply(f, va, vb, vc, vd)
        },
        _ => {
            proof {
                assert(false);
            }
            Value::Flag(false)
        },
    }
}

proof fn lemma_graph_wf_push(kinds: Seq<NodeKind>, k: NodeKind)
    requires
        graph_wf(kinds),
        node_wf(kinds.push(k), kinds.len() as int),
    ensures
        graph_wf(kinds.push(k)),
{
    let ks = kinds.push(k);
    assert forall|i: int| 0 <= i < ks.len() implies node_wf(ks, i) by {
        if i < kinds.len() {
            assert(node_wf(kinds, i));
            assert(ks[i] == kinds[i]);
        }
    }
}

impl Engine {
    /// The schedule of node kinds, in id order.
    pub closed spec fn kinds(self) -> Seq<NodeKind> {
        self.kinds@
    }

    /// The committed cells, one slot per node (unused for non-cell nodes).
    pub closed spec fn cells(self) -> Seq<Value> {
        self.cells@
    }

    /// One cell slot per node, and every node refers only backwards.
    pub open spec fn wf(self) -> bool {
        self.cells().len() == self.kinds().len() && graph_wf(self.kinds())
    }

    /// An empty graph.
    pub fn new() -> (e: Engine)
        ensures
            e.wf(),
            e.kinds() == Seq::<NodeKind>::empty(),
            e.cells() == Seq::<Value>::empty(),
    {
        Engine { kinds: Vec::new(), cells: Vec::new() }
    }

    /// How many nodes the graph holds.
    pub fn len(&self) -> (r: usize)
        ensures
            r == self.kinds().len(),
    {
        self.kinds.len()
    }

    fn add_node(&mut self, k: NodeKind, cell: Value) -> (id: usize)
        requires
            old(self).wf(),
            node_wf(old(self).kinds().push(k), old(self).kinds().len() as int),
        ensures
            final(self).wf(),
            final(self).kinds() == old(self).kinds().push(k),
            final(self).cells() == old(self).cells().push(cell),
            id == old(self).kinds().len(),
    {
        proof {
            lemma_graph_wf_push(self.kinds@, k);
        }
        let id = self.kinds.len();
        self.kinds.push(k);
        self.cells.push(cell);
        id
    }

    /// Add an injection point: a stream driven from outside the graph.
    pub fn add_source(&mut self) -> (id: usize)
        requires
            old(self).wf(),
        ensures
            final(self).wf(),
            final(self).kinds() == old(self).kinds().push(NodeKind::Source),
            final(self).cells() == old(self).cells().push(Value::Flag(false)),
            id == old(self).kinds().len(),
    {
        self.add_node(NodeKind::Source, Value::Flag(false))
    }

    /// Add a stream mapping every occurrence of stream `s` through `f`.
    pub fn add_map(&mut self, f: MapFn, s: usize) -> (id: usize)
        requires
            old(self).wf(),
            s < old(self).kinds().len(),
            is_stream(old(self).kinds()[s as int]),
        ensures
            final(self).wf(),
            final(self).kinds() == old(self).kinds().push(NodeKind::Mapped(f, s)),
            final(self).cells() == old(self).cells().push(Value::Flag(false)),
            id == old(self).kinds().len(),
    {
        self.add_node(NodeKind::Mapped(f, s), Value::Flag(false))
    }

    /// Add a stream forwarding occurrences of stream `s` that satisfy `p`.
    pub fn add_filter(&mut self, p: PredFn, s: usize) -> (id: usize)
        requires
            old(self).wf(),
            s < old(self).kinds().len(),
            is_stream(old(self).kinds()[s as int]),
        ensures
            final(self).wf(),
            final(self).kinds() == old(self).kinds().push(NodeKind::Filtered(p, s)),
            final(self).cells() == old(self).cells().push(Value::Flag(false)),
            id == old(self).kinds().len(),
    {
        self.add_node(NodeKind::Filtered(p, s), Value::Flag(false))
    }

    /// Add a stream firing `f(v)` for occurrences `v` of stream `s` where
    /// that result is present.
    pub fn add_filter_map(&mut self, f: FilterMapFn, s: usize) -> (id: usize)
        requires
            old(self).wf(),
            s < old(self).kinds().len(),
            is_stream(old(self).kinds()[s as int]),
        ensures
            final(self).wf(),
            final(self).kinds() == old(self).kinds().push(NodeKind::FilterMapped(f, s)),
            final(self).cells() == old(self).cells().push(Value::Flag(false)),
            id == old(self).kinds().len(),
    {
        self.add_node(NodeKind::FilterMapped(f, s), Value::Flag(false))
    }

    /// Add a signal folding the occurrences of stream `s` with `f`,
    /// starting from `init`.
    pub fn add_fold(&mut self, f: FoldFn, init: Value, s: usize) -> (id: usize)
        requires
            old(self).wf(),
            s < old(self).kinds().len(),
            is_stream(old(self).kinds()[s as int]),
        ensures
            final(self).wf(),
            final(self).kinds() == old(self).kinds().push(NodeKind::Fold(f, s)),
            final(self).cells() == old(self).cells().push(init),
            id == old(self).kinds().len(),
    {
        self.add_node(NodeKind::Fold(f, s), init)
    }

    /// Add a folding signal whose accumulator also samples signal `c`, read
    /// as of the transaction being processed.
    pub fn add_fold_ctx(&mut self, f: CtxFoldFn, init: Value, s: usize, c: usize) -> (id: usize)
        requires
            old(self).wf(),
            s < old(self).kinds().len(),
            is_stream(old(self).kinds()[s as int]),
            c < old(self).kinds().len(),
            is_signal(old(self).kinds()[c as int]),
        ensures
            final(self).wf(),
            final(self).kinds() == old(self).kinds().push(NodeKind::FoldCtx(f, s, c)),
            final(self).cells() == old(self).cells().push(init),
            id == old(self).kinds().len(),
    {
        self.add_node(NodeKind::FoldCtx(f, s, c), init)
    }

    /// Add a signal latching the most recent occurrence of stream `s`,
    /// starting from `init`.
    pub fn add_hold(&mut self, init: Value, s: usize) -> (id: usize)
        requires
            old(self).wf(),
            s < old(self).kinds().len(),
            is_stream(old(self).kinds()[s as int]),
        ensures
            final(self).wf(),
            final(self).kinds() == old(self).kinds().push(NodeKind::Hold(s)),
            final(self).cells() == old(self).cells().push(init),
            id == old(self).kinds().len(),
    {
        self.add_node(NodeKind::Hold(s), init)
    }

    /// Add a stream that fires exactly when stream `s` fires, pairing the
    /// pre-transaction value of signal `c` with the occurrence through `f`.
    pub fn add_snapshot(&mut self, f: SnapFn, c: usize, s: usize) -> (id: usize)
        requires
            old(self).wf(),
            c < old(self).kinds().len(),
            is_signal(old(self).kinds()[c as int]),
            s < old(self).kinds().len(),
            is_stream(old(self).kinds()[s as int]),
        ensures
            final(self).wf(),
            final(self).kinds() == old(self).kinds().push(NodeKind::Snapshot(f, c, s)),
            final(self).cells() == old(self).cells().push(Value::Flag(false)),
            id == old(self).kinds().len(),
    {
        self.add_node(NodeKind::Snapshot(f, c, s), Value::Flag(false))
    }

    /// Add a signal whose sampled value is always `v`.
    pub fn add_constant(&mut self, v: Value) -> (id: usize)
        requires
            old(self).wf(),
        ensures
            final(self).wf(),
            final(self).kinds() == old(self).kinds().push(NodeKind::Constant),
            final(self).cells() == old(self).cells().push(v),
            id == old(self).kinds().len(),
    {
        self.add_node(NodeKind::Constant, v)
    }

    /// Add a signal recomputed as `f` over signals `a` and `b`.
    pub fn add_lift2(&mut self, f: Lift2Fn, a: usize, b: usize) -> (id: usize)
        requires
            old(self).wf(),
            a < old(self).kinds().len(),
            is_signal(old(self).kinds()[a as int]),
            b < old(self).kinds().len(),
            is_signal(old(self).kinds()[b as int]),
        ensures
            final(self).wf(),
            final(self).kinds() == old(self).kinds().push(NodeKind::Lift2(f, a, b)),
            final(self).cells() == old(self).cells().push(Value::Flag(false)),
            id == old(self).kinds().len(),
    {
        self.add_node(NodeKind::Lift2(f, a, b), Value::Flag(false))
    }

    /// Add a signal recomputed as `f` over signals `a`, `b`, `c` and `d`.
    pub fn add_lift4(&mut self, f: Lift4Fn, a: usize, b: usize, c: usize, d: usize) -> (id: usize)
        requires
            old(self).wf(),
            a < old(self).kinds().len(),
            is_signal(old(self).kinds()[a as int]),
            b < old(self).kinds().len(),
            is_signal(old(self).kinds()[b as int]),
            c < old(self).kinds().len(),
            is_signal(old(self).kinds()[c as int]),
            d < old(self).kinds().len(),
            is_signal(old(self).kinds()[d as int]),
        ensures
            final(self).wf(),
            final(self).kinds() == old(self).kinds().push(NodeKind::Lift4(f, a, b, c, d)),
            final(self).cells() == old(self).cells().push(Value::Flag(false)),
            id == old(self).kinds().len(),
    {
        self.add_node(NodeKind::Lift4(f, a, b, c, d), Value::Flag(false))
    }

    /// Sample signal `i` between transactions: pure, side-effect-free, and
    /// determined by the committed cells.
    pub fn sample(&self, i: usize) -> (r: Value)
        requires
            self.wf(),
            i < self.kinds().len(),
            is_signal(self.kinds()[i as int]),
        ensures
            r == value_at(self.kinds(), self.cells(), i as int),
    {
        eval_cells(&self.kinds, &self.cells, i)
    }

    /// Run one transaction: source `src` fires `input`, the graph is walked
    /// once in schedule order, every cell reachable from the source is
    /// updated exactly once, and the results are committed.
    pub fn send(&mut self, src: usize, input: Value)
        requires
            old(self).wf(),
            src < old(self).kinds().len(),
            old(self).kinds()[src as int] matches NodeKind::Source,
        ensures
            final(self).wf(),
            final(self).kinds() == old(self).kinds(),
            final(self).cells().len() == old(self).cells().len(),
            forall|j: int|
                0 <= j < old(self).cells().len() ==> final(self).cells()[j] == cell_after(
                    old(self).kinds(),
                    old(self).cells(),
                    src as int,
                    input,
                    j,
                ),
    {
        let ghost kinds0 = self.kinds@;
        let ghost prior = self.cells@;
        let n = self.kinds.len();

        // Freeze the pre-transaction cells for snapshot reads.
        let mut frozen: Vec<Value> = Vec::new();
        let mut t: usize = 0;
        while t < n
            invariant
                t <= n,
                n == self.kinds@.len(),
                self.cells@.len() == n,
                frozen@.len() == t,
                forall|j: int| 0 <= j < t ==> frozen@[j] == self.cells@[j],
            decreases n - t,
        {
            let v = self.cells[t];
            frozen.push(v);
            t += 1;
        }

        let mut occ: Vec<Option<Value>> = Vec::new();
        let mut i: usize = 0;
        while i < n
            invariant
                i <= n,
                n == kinds0.len(),
                self.kinds@ == kinds0,
                self.cells@.len() == n,
                prior.len() == n,
                frozen@ == prior,
                graph_wf(kinds0),
                src < n,
                kinds0[src as int] matches NodeKind::Source,
                occ@.len() == i,
                forall|j: int|
                    0 <= j < i ==> occ@[j] == occ_at(kinds0, prior, src as int, input, j),
                forall|j: int|
                    0 <= j < n ==> self.cells@[j] == if j < i {
                        cell_after(kinds0, prior, src as int, input, j)
                    } else {
                        prior[j]
                    },
            decreases n - i,
        {
            proof {
                assert(node_wf(kinds0, i as int));
            }
            let k = self.kinds[i];
            match k {
                NodeKind::Source => {
                    let o = if i == src {
                        Some(input)
                    } else {
                        None
                    };
                    occ.push(o);
                },
                NodeKind::Mapped(f, s) => {
                    let o = match occ[s] {
                        Some(v) => Some(map_apply(f, v)),
                        None => None,
                    };
                    occ.push(o);
                },
                NodeKind::Filtered(p, s) => {
                    let o = match occ[s] {
                        Some(v) => if pred_apply(p, v) {
                            Some(v)
                        } else {
                            None
                        },
                        None => None,
                    };
                    occ.push(o);
                },
                NodeKind::FilterMapped(f, s) => {
                    let o = match occ[s] {
                        Some(v) => fm_apply(f, v),
                        None => None,
                    };
                    occ.push(o);
                },
                NodeKind::Snapshot(f, c, s) => {
                    let o = match occ[s] {
                        Some(b) => {
                            let a = eval_cells(&self.kinds, &frozen, c);
                            Some(snap_apply(f, a, b))
                        },
                        None => None,
                    };
                    occ.push(o);
                },
                NodeKind::Fold(f, s) => {
                    match occ[s] {
                        Some(v) => {
                            let cur = self.cells[i];
                            let nv = fold_apply(f, cur, v);
                            self.cells[i] = nv;
                        },
                        None => {},
                    };
                    occ.push(None);
                },
                NodeKind::FoldCtx(f, s, c) => {
                    match occ[s] {
                        Some(v) => {
                            let ctxv = eval_cells(&self.kinds, &self.cells, c);
                            proof {
                                lemma_commit_visible(
                                    kinds0,
                                    prior,
                                    self.cells@,
                                    src as int,
                                    input,
                                    c as int,
                                );
                            }
                            let cur = self.cells[i];
                            let nv = ctx_apply(f, cur, v, ctxv);
                            self.cells[i] = nv;
                        },
                        None => {},
                    };
                    occ.push(None);
                },
                NodeKind::Hold(s) => {
                    match occ[s] {
                        Some(v) => {
                            self.cells[i] = v;
                        },
                        None => {},
                    };
                    occ.push(None);
                },
                NodeKind::Constant => {
                    occ.push(None);
                },
                NodeKind::Lift2(_, _, _) => {
                    occ.push(None);
                },
                NodeKind::Lift4(_, _, _, _, _) => {
                    occ.push(None);
                },
            }
            i += 1;
        }
    }
}

} // verus!
