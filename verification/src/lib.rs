//! A minimal in-browser rendering surface and shader pipeline, modelled over
//! plain values so that every decision it makes is verified.
//!
//! The library owns the logic of the subsystem: locating and validating the
//! drawable canvas, the error taxonomy of surface acquisition, the handling of
//! shader compile and link outcomes, attribute binding, vertex counting, and
//! the step-by-step sequencing of a draw pass. The host shell performs the
//! actual browser and GPU calls and reports each outcome back to the library,
//! which decides what happens next.

pub mod errors;
pub mod geometry;
pub mod screen;
pub mod shader;
pub mod viewport;
