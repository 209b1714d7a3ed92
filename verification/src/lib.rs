//! Cursor warping between adjacent display outputs.
//!
//! A multi-monitor desktop is modelled as a set of axis-aligned rectangles
//! (outputs) in one shared integer coordinate space. When the cursor touches
//! the border of the output it is inside, the engine selects the closest
//! output in that direction and computes the landing point on its facing
//! edge. The geometry and the decisions are verified here; reading the
//! cursor, enumerating outputs and moving the cursor are platform work that
//! a host program supplies around this library.

pub mod geometry;
pub mod planner;
pub mod registry;

pub use geometry::Dir;
pub use geometry::Dirs;
pub use geometry::Mouse;
pub use geometry::Window;
pub use planner::plan_tick;
pub use registry::Windows;
