//! A single-line status bar for a terminal workspace manager.
//!
//! Given the list of open tabs and the current input mode, the library
//! derives one styled row of text: a leading mode indicator, one label per
//! tab, cut down greedily to the available column budget, and a trailing
//! background fill in whichever of the two color encodings the palette's
//! baseline color uses.

pub mod compose;
pub mod model;
pub mod render;
pub mod segment;
pub mod state;
pub mod text;
