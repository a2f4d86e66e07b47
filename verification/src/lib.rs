//! Core of a Monte-Carlo path tracer: the pieces of the renderer that are
//! plain data and decision logic, stated with contracts and verified.
//!
//! The floating-point geometry (bounding-box algebra, ray intersection,
//! shading) lives outside this library, in the renderer binary built on top
//! of it; this crate holds the arena that backs the bounding-volume
//! hierarchy, the option-combining helper used by intersection code, the
//! axis and scene enumerations, and the command-line validation rules.

pub mod cli;
pub mod scenes;
pub mod textures;
pub mod utils;
