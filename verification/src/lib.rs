//! Decisions and text of an on-device OCR tool: which recognized lines are
//! kept, how language hints are read and applied, what the tool advertises,
//! and the reply it gives for every outcome of a recognition.

pub mod languages;
pub mod lines;
pub mod text;
pub mod tool;
