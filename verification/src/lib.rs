//! A terminal dashboard that tracks predictions: titled claims with a
//! certainty score and temporal metadata.
//!
//! The library holds the verified core: the `Prediction` entity and its
//! validation invariant, the per-frame partition of the screen into regions,
//! the content each visual component renders into its region, and the key
//! dispatch that drives the `Running`/`Exiting` state machine.  The thin
//! binary around it owns the terminal session and paints the computed rows.

pub mod app;
pub mod components;
pub mod date;
pub mod geometry;
pub mod input;
pub mod numtext;
pub mod prediction;
pub mod render;
