//! Input-driven animation and control engine for a small 2D tile game.
//!
//! A minimal reactive runtime (discrete event streams and continuously
//! sampleable signals, propagated through a static dataflow graph) carries a
//! keyboard event sequence and a time-delta sequence into derived values for
//! movement impulse, facing direction, world position and the rendered
//! animation frame. The runtime and the control network wired on top of it
//! are verified; the windowing, audio and rendering layers around them are
//! ordinary unverified glue.

pub mod audio;
pub mod brobot;
pub mod map;
pub mod ratio;
pub mod reactive;
pub mod renderer;
pub mod scene;
pub mod textbox;
pub mod tilepicker;

