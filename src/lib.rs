//! Structural core of a 3D scalar wave simulator and its isosurface mesher.
//!
//! The numeric kernels work on single-precision samples; this library holds
//! everything around them that decides *which* samples are read, written and
//! connected: grid addressing, the Dirichlet stencil, the rotation of the three
//! time-level buffers and the step that fills them, the marching-cubes
//! classification and tables, the cell-by-cell topology of the extracted
//! surface, and vertex welding. The per-sample arithmetic comes from the
//! caller, as the update function of a step and the interpolation of the
//! crossings that extraction reports.
use vstd::prelude::*;

pub mod buffers;
pub mod cube;
pub mod extract;
pub mod grid;
pub mod simulation;
pub mod tables;
pub mod weld;

pub use buffers::{roles, FieldBuffers, Stencil};
pub use extract::{surface_crossings, ExtractError};
pub use grid::GridShape;
pub use simulation::Simulation;
pub use weld::weld;
