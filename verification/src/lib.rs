//! A verified combat-unit ("creep") behavior engine: a per-unit finite state
//! machine deciding whether a unit advances along a waypoint lane, chases a
//! hostile target, or attacks, together with the spatial target selection and
//! the steering that drives movement.
//!
//! All coordinates are fixed-point integers in milli-units (one thousandth of
//! a world unit), so every distance comparison in the contracts is exact.
//! Rendering, physics and entity storage are external collaborators: the
//! library computes target selections, state transitions, headings and
//! displacement commands, and a host applies them.

pub mod agent;
pub mod behavior;
pub mod geom;
pub mod path;
pub mod selector;
pub mod spawner;
pub mod transition;
pub mod world;
