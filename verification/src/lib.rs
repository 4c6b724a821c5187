//! Verified core of an interactive electrostatics visualizer.
//!
//! Charges sit on integer canvas coordinates and carry a signed magnitude
//! counted in elementary charges. The library keeps the charge set, decides
//! which charges emit field lines and which capture them, runs the tracing of
//! every line up to its step budget, lays out the particle icons and the
//! toolbar, and says what each input event does.
//!
//! The field itself is floating-point arithmetic, which this library does
//! not hold. The caller supplies it as two functions, one that seeds a line
//! and one that takes the integration a step further; see
//! [`Game::on_update`] and [`FieldLine::trace`].

pub mod game;
pub mod geometry;
pub mod icon;
pub mod input;
pub mod particle;
pub mod session;
pub mod toolbar;
pub mod tracer;

pub use game::{adjust_charge, Emission, Frame, Game, LINES_PER_CHARGE};
pub use geometry::{Point, Rect};
pub use icon::{draw_particle, Color, Icon, Placement};
pub use input::{InputEvent, Key};
pub use particle::{Charge, Particle, PARTICLE_RADIUS};
pub use session::{Action, Redraw, Session};
pub use toolbar::{Toolbar, ToolbarLayout, ToolbarOption};
pub use tracer::{FieldLine, Sample, Trace, TraceStatus, MAX_LINE_ITERS};
